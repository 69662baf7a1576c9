use xlsx2csv::name_filter::NameFilter;
use xlsx2csv::name_filter::PatternError;

fn names(list: &[&str]) -> Vec<String> {
    list.iter().map(|s| s.to_string()).collect()
}

fn filter(inc: Option<&str>, exc: Option<&str>, ignore_case: bool) -> NameFilter {
    NameFilter {
        include_pattern: inc.map(|s| s.to_string()),
        exclude_pattern: exc.map(|s| s.to_string()),
        ignore_case,
    }
}

#[test]
fn keep_then_drop_composition_preserves_order() {
    let f = filter(Some("^A"), Some("Z$"), false);
    let kept = f.filter_names(&names(&["Alpha", "AlphaZ", "Beta"])).unwrap();
    assert_eq!(kept, names(&["Alpha"]));
}

#[test]
fn absent_patterns_pass_everything() {
    let f = filter(None, None, false);
    let all = names(&["One", "Two", "Three"]);
    assert_eq!(f.filter_names(&all).unwrap(), all);
}

#[test]
fn keep_pattern_alone_narrows() {
    let f = filter(Some("e"), None, false);
    let kept = f.filter_names(&names(&["Alpha", "Beta", "Gamma"])).unwrap();
    assert_eq!(kept, names(&["Beta"]));
}

#[test]
fn drop_pattern_alone_removes() {
    let f = filter(None, Some("a$"), false);
    let kept = f.filter_names(&names(&["Alpha", "Beta", "Sheet"])).unwrap();
    assert_eq!(kept, names(&["Sheet"]));
}

#[test]
fn case_flag_applies_to_both_patterns() {
    let sensitive = filter(Some("^a"), None, false);
    assert_eq!(sensitive.filter_names(&names(&["Alpha"])).unwrap(), names(&[]));
    let insensitive = filter(Some("^a"), None, true);
    assert_eq!(insensitive.filter_names(&names(&["Alpha"])).unwrap(), names(&["Alpha"]));
}

#[test]
fn malformed_keep_pattern_fails_fast() {
    let f = filter(Some("("), None, false);
    match f.filter_names(&names(&["Alpha"])) {
        Err(PatternError::BadIncludePattern { .. }) => {}
        _ => panic!("expected the keep pattern to be reported"),
    }
}

#[test]
fn malformed_drop_pattern_fails_fast() {
    let f = filter(Some("^A"), Some("["), false);
    match f.filter_names(&names(&["Alpha"])) {
        Err(PatternError::BadExcludePattern { .. }) => {}
        _ => panic!("expected the drop pattern to be reported"),
    }
}

#[test]
fn patterns_match_anywhere_in_the_name() {
    let f = filter(Some("lph"), None, false);
    let kept = f.filter_names(&names(&["Alpha", "Beta"])).unwrap();
    assert_eq!(kept, names(&["Alpha"]));
}
