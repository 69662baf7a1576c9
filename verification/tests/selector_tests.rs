use xlsx2csv::sheet_selector::SelectorError;
use xlsx2csv::sheet_selector::SheetSelector;

fn names(list: &[&str]) -> Vec<String> {
    list.iter().map(|s| s.to_string()).collect()
}

#[test]
fn numeric_token_parses_by_id() {
    assert!(matches!(SheetSelector::parse("0"), SheetSelector::ById(0)));
    assert!(matches!(SheetSelector::parse("3"), SheetSelector::ById(3)));
    assert!(matches!(SheetSelector::parse("+7"), SheetSelector::ById(7)));
}

#[test]
fn other_tokens_parse_by_name() {
    match SheetSelector::parse("Sheet1") {
        SheetSelector::ByName(n) => assert_eq!(n, "Sheet1"),
        _ => panic!("expected a name selector"),
    }
    assert!(matches!(SheetSelector::parse(""), SheetSelector::ByName(_)));
    assert!(matches!(SheetSelector::parse("+"), SheetSelector::ByName(_)));
    assert!(matches!(SheetSelector::parse("-1"), SheetSelector::ByName(_)));
    assert!(matches!(SheetSelector::parse("1.5"), SheetSelector::ByName(_)));
}

#[test]
fn oversized_numeral_parses_by_name() {
    // Far beyond what fits in usize: the token stays a literal name.
    let token = "99999999999999999999999999999999999999";
    assert!(matches!(SheetSelector::parse(token), SheetSelector::ByName(_)));
}

#[test]
fn id_in_range_finds_the_positional_name() {
    let list = names(&["a", "b", "c"]);
    for i in 0..3 {
        let found = SheetSelector::ById(i).find_in(&list).unwrap();
        assert_eq!(found, &list[i]);
    }
}

#[test]
fn id_out_of_range_reports_id_and_count() {
    let list = names(&["a", "b", "c"]);
    match SheetSelector::ById(3).find_in(&list) {
        Err(SelectorError::IdOutOfRange { id, count }) => {
            assert_eq!(id, 3);
            assert_eq!(count, 3);
        }
        _ => panic!("expected an out-of-range error"),
    }
}

#[test]
fn name_present_is_found_exactly() {
    let list = names(&["First", "Second"]);
    let found = SheetSelector::ByName("Second".to_string()).find_in(&list).unwrap();
    assert_eq!(found, "Second");
}

#[test]
fn name_matching_is_case_sensitive() {
    let list = names(&["First"]);
    match SheetSelector::ByName("first".to_string()).find_in(&list) {
        Err(SelectorError::NameNotFound { name }) => assert_eq!(name, "first"),
        _ => panic!("expected a not-found error"),
    }
}

#[test]
fn find_in_empty_list_fails() {
    let list: Vec<String> = Vec::new();
    assert!(SheetSelector::ById(0).find_in(&list).is_err());
    assert!(SheetSelector::ByName("x".to_string()).find_in(&list).is_err());
}
