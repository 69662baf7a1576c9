use xlsx2csv::delimiter::Delimiter;
use xlsx2csv::delimiter::DelimiterError;

#[test]
fn single_ascii_tokens_parse_to_their_byte() {
    let tokens = [",", ";", "|", " ", "x", "0", "#"];
    for token in tokens {
        let d = Delimiter::parse(token).unwrap();
        assert_eq!(d.as_byte(), token.as_bytes()[0]);
        assert_eq!(d.as_char(), token.chars().next().unwrap());
    }
}

#[test]
fn tab_escape_parses_to_tab() {
    let d = Delimiter::parse("\\t").unwrap();
    assert_eq!(d.as_byte(), b'\t');
}

#[test]
fn newline_escape_parses_to_newline() {
    let d = Delimiter::parse("\\n").unwrap();
    assert_eq!(d.as_byte(), b'\n');
}

#[test]
fn tab_extension_is_tsv() {
    let d = Delimiter::parse("\\t").unwrap();
    assert_eq!(d.to_file_extension(), "tsv");
}

#[test]
fn comma_extension_is_csv() {
    let d = Delimiter::parse(",").unwrap();
    assert_eq!(d.to_file_extension(), "csv");
}

#[test]
fn semicolon_extension_is_csv_too() {
    let d = Delimiter::parse(";").unwrap();
    assert_eq!(d.to_file_extension(), "csv");
}

#[test]
fn multi_character_token_is_rejected() {
    assert!(matches!(Delimiter::parse("ab"), Err(DelimiterError::NotSingleChar)));
    assert!(matches!(Delimiter::parse(""), Err(DelimiterError::NotSingleChar)));
    assert!(matches!(Delimiter::parse("\\x"), Err(DelimiterError::NotSingleChar)));
}

#[test]
fn non_ascii_character_is_rejected() {
    assert!(matches!(Delimiter::parse("\u{e9}"), Err(DelimiterError::NotAscii)));
}
