//! The full option set of one run, and the action it resolves to.
//!
//! The options are not fully orthogonal, so the action is derived once, in
//! one place, by a fixed priority order: listing wins over everything,
//! exporting under sheet names comes next, an empty output list means one
//! sheet goes to standard output, and otherwise sheets are paired with the
//! given output files.

use vstd::prelude::*;

use crate::delimiter::Delimiter;
use crate::sheet_selector::SheetSelector;

verus! {

/// The options of one run.  Paths are plain strings here; whoever performs
/// the I/O turns them into paths.
#[derive(Debug)]
pub struct Opt {
    /// The input workbook path.
    pub xlsx: String,
    /// Explicit output files, paired with sheets by position.
    pub output: Vec<String>,
    /// Print the sheet names and do nothing else.
    pub list: bool,
    /// Use the first row as a column-width template.
    pub use_header: bool,
    /// Which sheet goes to standard output, when no output files are given.
    pub select: Option<SheetSelector>,
    /// Export every (filtered) sheet to `<name>.<extension>`.
    pub use_sheet_names: bool,
    /// Destination directory for exports under sheet names.
    pub workdir: Option<String>,
    /// Keep only sheet names matching this pattern.
    pub include_pattern: Option<String>,
    /// Drop sheet names matching this pattern.
    pub exclude_pattern: Option<String>,
    /// Match both name patterns case-insensitively.
    pub ignore_case: bool,
    /// The output field separator.
    pub delimiter: Delimiter,
}

/// The four mutually exclusive things a run can do.
pub enum ActionType {
    List,
    UseSheetNames,
    OutputIsEmpty(InnerAction),
    DefaultToFile,
}

/// Whether a sheet selector was supplied for the standard-output export.
pub enum InnerAction {
    SelectValid(SheetSelector),
    SelectInvalid,
}

/// The selector carried into a standard-output export: the one the user
/// supplied, or none, which later falls back to the first sheet.
pub open spec fn spec_inner_action(opt: Opt) -> InnerAction {
    match opt.select {
        Some(s) => InnerAction::SelectValid(s),
        None => InnerAction::SelectInvalid,
    }
}

/// The action an option set resolves to, in fixed priority order: `list`
/// first, then `use_sheet_names`, then an empty output list, and the
/// explicit output files last.
pub open spec fn spec_action_type(opt: Opt) -> ActionType {
    if opt.list {
        ActionType::List
    } else if opt.use_sheet_names {
        ActionType::UseSheetNames
    } else if opt.output@.len() == 0 {
        ActionType::OutputIsEmpty(spec_inner_action(opt))
    } else {
        ActionType::DefaultToFile
    }
}

/// Listing has absolute priority: whenever the list flag is set, the
/// resolved action is `List`, whatever other flags are also set.
pub proof fn lemma_list_has_priority(opt: Opt)
    requires
        opt.list,
    ensures
        spec_action_type(opt) is List,
{
}

impl From<Opt> for InnerAction {
    fn from(opt: Opt) -> (r: Self)
        ensures
            r == spec_inner_action(opt),
    {
        match opt.select {
            Some(select) => InnerAction::SelectValid(select),
            None => InnerAction::SelectInvalid,
        }
    }
}

impl vstd::std_specs::convert::FromSpecImpl<Opt> for InnerAction {
    open spec fn obeys_from_spec() -> bool {
        true
    }

    open spec fn from_spec(opt: Opt) -> Self {
        spec_inner_action(opt)
    }
}

impl<'a> From<&'a Opt> for InnerAction {
    fn from(opt: &'a Opt) -> (r: Self)
        ensures
            r == spec_inner_action(*opt),
    {
        match &opt.select {
            Some(select) => InnerAction::SelectValid(select.clone()),
            None => InnerAction::SelectInvalid,
        }
    }
}

impl<'a> vstd::std_specs::convert::FromSpecImpl<&'a Opt> for InnerAction {
    open spec fn obeys_from_spec() -> bool {
        true
    }

    open spec fn from_spec(opt: &'a Opt) -> Self {
        spec_inner_action(*opt)
    }
}

impl From<Opt> for ActionType {
    fn from(opt: Opt) -> (r: Self)
        ensures
            r == spec_action_type(opt),
    {
        if opt.list {
            ActionType::List
        } else if opt.use_sheet_names {
            ActionType::UseSheetNames
        } else if opt.output.is_empty() {
            ActionType::OutputIsEmpty(InnerAction::from(opt))
        } else {
            ActionType::DefaultToFile
        }
    }
}

impl vstd::std_specs::convert::FromSpecImpl<Opt> for ActionType {
    open spec fn obeys_from_spec() -> bool {
        true
    }

    open spec fn from_spec(opt: Opt) -> Self {
        spec_action_type(opt)
    }
}

impl<'a> From<&'a Opt> for ActionType {
    fn from(opt: &'a Opt) -> (r: Self)
        ensures
            r == spec_action_type(*opt),
    {
        if opt.list {
            ActionType::List
        } else if opt.use_sheet_names {
            ActionType::UseSheetNames
        } else if opt.output.is_empty() {
            ActionType::OutputIsEmpty(InnerAction::from(opt))
        } else {
            ActionType::DefaultToFile
        }
    }
}

impl<'a> vstd::std_specs::convert::FromSpecImpl<&'a Opt> for ActionType {
    open spec fn obeys_from_spec() -> bool {
        true
    }

    open spec fn from_spec(opt: &'a Opt) -> Self {
        spec_action_type(*opt)
    }
}

} // verus!
