use xlsx2csv::cli::ActionType;
use xlsx2csv::cli::InnerAction;
use xlsx2csv::cli::Opt;
use xlsx2csv::delimiter::Delimiter;
use xlsx2csv::plan::output_path;
use xlsx2csv::plan::pair_sheets_with_outputs;
use xlsx2csv::plan::plan_run;
use xlsx2csv::plan::RunError;
use xlsx2csv::plan::RunPlan;
use xlsx2csv::sheet_selector::SheetSelector;

fn names(list: &[&str]) -> Vec<String> {
    list.iter().map(|s| s.to_string()).collect()
}

fn base_opt() -> Opt {
    Opt {
        xlsx: "input.xlsx".to_string(),
        output: Vec::new(),
        list: false,
        use_header: false,
        select: None,
        use_sheet_names: false,
        workdir: None,
        include_pattern: None,
        exclude_pattern: None,
        ignore_case: false,
        delimiter: Delimiter(b','),
    }
}

#[test]
fn list_flag_wins_over_everything_else() {
    let mut opt = base_opt();
    opt.list = true;
    opt.use_sheet_names = true;
    opt.select = Some(SheetSelector::ById(1));
    assert!(matches!(ActionType::from(&opt), ActionType::List));
}

#[test]
fn sheet_names_flag_wins_over_stdout() {
    let mut opt = base_opt();
    opt.use_sheet_names = true;
    assert!(matches!(ActionType::from(&opt), ActionType::UseSheetNames));
}

#[test]
fn empty_output_list_resolves_to_stdout() {
    let opt = base_opt();
    assert!(matches!(
        ActionType::from(&opt),
        ActionType::OutputIsEmpty(InnerAction::SelectInvalid)
    ));
    let mut with_select = base_opt();
    with_select.select = Some(SheetSelector::ById(0));
    assert!(matches!(
        ActionType::from(&with_select),
        ActionType::OutputIsEmpty(InnerAction::SelectValid(_))
    ));
}

#[test]
fn explicit_outputs_resolve_to_files() {
    let mut opt = base_opt();
    opt.output = names(&["a.csv"]);
    assert!(matches!(ActionType::from(&opt), ActionType::DefaultToFile));
}

#[test]
fn empty_workbook_is_fatal_before_mode_resolution() {
    // Even a run that only lists, or one whose pattern is malformed,
    // fails on the empty sheet list first.
    let empty: Vec<String> = Vec::new();
    let mut opt = base_opt();
    opt.list = true;
    assert!(matches!(plan_run(&opt, &empty), Err(RunError::EmptyWorkbook)));
    let mut bad = base_opt();
    bad.use_sheet_names = true;
    bad.include_pattern = Some("(".to_string());
    assert!(matches!(plan_run(&bad, &empty), Err(RunError::EmptyWorkbook)));
}

#[test]
fn explicit_files_stop_at_the_shorter_list() {
    let mut opt = base_opt();
    opt.output = names(&["one.csv", "two.csv"]);
    let sheets = names(&["S1", "S2", "S3"]);
    match plan_run(&opt, &sheets).unwrap() {
        RunPlan::ExportToFiles { pairs } => {
            assert_eq!(pairs.len(), 2);
            assert_eq!(pairs[0].sheet, "S1");
            assert_eq!(pairs[0].path, "one.csv");
            assert_eq!(pairs[1].sheet, "S2");
            assert_eq!(pairs[1].path, "two.csv");
        }
        _ => panic!("expected a file export plan"),
    }
}

#[test]
fn extra_output_paths_are_ignored_too() {
    let mut opt = base_opt();
    opt.output = names(&["one.csv", "two.csv", "three.csv"]);
    let sheets = names(&["S1"]);
    match plan_run(&opt, &sheets).unwrap() {
        RunPlan::ExportToFiles { pairs } => assert_eq!(pairs.len(), 1),
        _ => panic!("expected a file export plan"),
    }
}

#[test]
fn sheet_name_mode_filters_and_routes() {
    let mut opt = base_opt();
    opt.use_sheet_names = true;
    opt.include_pattern = Some("^A".to_string());
    opt.exclude_pattern = Some("Z$".to_string());
    opt.workdir = Some("out".to_string());
    let sheets = names(&["Alpha", "AlphaZ", "Beta"]);
    match plan_run(&opt, &sheets).unwrap() {
        RunPlan::ExportToFiles { pairs } => {
            assert_eq!(pairs.len(), 1);
            assert_eq!(pairs[0].sheet, "Alpha");
            assert_eq!(pairs[0].path, "out/Alpha.csv");
        }
        _ => panic!("expected a file export plan"),
    }
}

#[test]
fn sheet_name_mode_extension_follows_delimiter() {
    let mut opt = base_opt();
    opt.use_sheet_names = true;
    opt.delimiter = Delimiter(b'\t');
    let sheets = names(&["Data"]);
    match plan_run(&opt, &sheets).unwrap() {
        RunPlan::ExportToFiles { pairs } => assert_eq!(pairs[0].path, "Data.tsv"),
        _ => panic!("expected a file export plan"),
    }
}

#[test]
fn malformed_pattern_fails_the_plan() {
    let mut opt = base_opt();
    opt.use_sheet_names = true;
    opt.include_pattern = Some("(".to_string());
    let sheets = names(&["Alpha"]);
    assert!(matches!(plan_run(&opt, &sheets), Err(RunError::Pattern(_))));
}

#[test]
fn stdout_mode_defaults_to_the_first_sheet() {
    let opt = base_opt();
    let sheets = names(&["First", "Second"]);
    match plan_run(&opt, &sheets).unwrap() {
        RunPlan::ExportToStdout { sheet } => assert_eq!(sheet, "First"),
        _ => panic!("expected a stdout plan"),
    }
}

#[test]
fn stdout_mode_honours_the_selector() {
    let mut opt = base_opt();
    opt.select = Some(SheetSelector::ById(1));
    let sheets = names(&["First", "Second"]);
    match plan_run(&opt, &sheets).unwrap() {
        RunPlan::ExportToStdout { sheet } => assert_eq!(sheet, "Second"),
        _ => panic!("expected a stdout plan"),
    }
}

#[test]
fn bad_selector_fails_the_plan() {
    let mut opt = base_opt();
    opt.select = Some(SheetSelector::ById(9));
    let sheets = names(&["Only"]);
    assert!(matches!(plan_run(&opt, &sheets), Err(RunError::Selector(_))));
}

#[test]
fn list_plan_carries_no_exports() {
    let mut opt = base_opt();
    opt.list = true;
    let sheets = names(&["A", "B"]);
    assert!(matches!(plan_run(&opt, &sheets).unwrap(), RunPlan::ListNames));
}

#[test]
fn output_paths_join_cleanly() {
    assert_eq!(output_path(&None, "S", "csv"), "S.csv");
    assert_eq!(output_path(&Some(String::new()), "S", "csv"), "S.csv");
    assert_eq!(output_path(&Some("d".to_string()), "S", "csv"), "d/S.csv");
    assert_eq!(output_path(&Some("d/".to_string()), "S", "tsv"), "d/S.tsv");
}

#[test]
fn pairing_is_positional() {
    let pairs = pair_sheets_with_outputs(&names(&["a", "b"]), &names(&["x", "y", "z"]));
    assert_eq!(pairs.len(), 2);
    assert_eq!(pairs[0].sheet, "a");
    assert_eq!(pairs[0].path, "x");
    assert_eq!(pairs[1].sheet, "b");
    assert_eq!(pairs[1].path, "y");
}
