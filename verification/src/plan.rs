//! Resolving one run into a concrete plan.
//!
//! Given the option set and the workbook's ordered sheet names, exactly
//! one plan comes out: list the names, export one sheet to standard
//! output, or export a list of sheets to files.  A workbook without
//! sheets is fatal before anything else is looked at.  The mode priority,
//! the name filtering, the selector resolution and the pairing of sheets
//! with output files all happen here, so that whoever performs the I/O
//! only walks the plan.

use vstd::prelude::*;

use crate::cli::ActionType;
use crate::cli::InnerAction;
use crate::cli::Opt;
use crate::cli::spec_action_type;
use crate::delimiter::Delimiter;
use crate::name_filter::NameFilter;
use crate::name_filter::PatternError;
use crate::sheet_selector::SelectorError;
use crate::sheet_selector::SheetSelector;

verus! {

/// One sheet bound for one destination path.
#[derive(Debug)]
pub struct SheetOutput {
    pub sheet: String,
    pub path: String,
}

/// What a run does, resolved once from the options and the sheet names.
#[derive(Debug)]
pub enum RunPlan {
    /// Print the sheet names, one per line; nothing is exported.
    ListNames,
    /// Export exactly this sheet to standard output.
    ExportToStdout { sheet: String },
    /// Export each named sheet to its path, in order.
    ExportToFiles { pairs: Vec<SheetOutput> },
}

/// Why no plan could be made.
#[derive(Debug)]
pub enum RunError {
    /// The workbook has no sheets at all.
    EmptyWorkbook,
    /// The supplied sheet selector resolves to nothing.
    Selector(SelectorError),
    /// A name-filter pattern is malformed.
    Pattern(PatternError),
}

/// The extension per-sheet output files get, as `to_file_extension`
/// yields it: `tsv` for a tab delimiter, else `csv`.
pub open spec fn spec_extension(d: Delimiter) -> Seq<char> {
    if d.0 == 9 {
        "tsv"@
    } else {
        "csv"@
    }
}

/// The destination path for a sheet exported under its own name:
/// `<workdir>/<sheet>.<extension>`, with no separator added when the
/// working directory is absent, empty, or already ends in one.
pub open spec fn spec_output_path(workdir: Option<Seq<char>>, sheet: Seq<char>, ext: Seq<char>) -> Seq<
    char,
> {
    let file = sheet + seq!['.'] + ext;
    match workdir {
        None => file,
        Some(w) => {
            if w.len() == 0 {
                file
            } else if w.last() == '/' {
                w + file
            } else {
                w + seq!['/'] + file
            }
        },
    }
}

/// The name filter the options describe.
pub open spec fn spec_name_filter(opt: Opt) -> NameFilter {
    NameFilter {
        include_pattern: opt.include_pattern,
        exclude_pattern: opt.exclude_pattern,
        ignore_case: opt.ignore_case,
    }
}

/// Builds the destination path for a sheet exported under its own name.
pub fn output_path(workdir: &Option<String>, sheet: &str, ext: &str) -> (r: String)
    ensures
        r@ == spec_output_path(workdir.deep_view(), sheet@, ext@),
{
    proof {
        reveal_strlit("/");
        reveal_strlit(".");
    }
    let mut r = String::new();
    match workdir {
        Some(w) => {
            let n = w.as_str().unicode_len();
            if n > 0 {
                r.append(w.as_str());
                if w.as_str().get_char(n - 1) != '/' {
                    r.append("/");
                }
            }
        },
        None => {},
    }
    r.append(sheet);
    r.append(".");
    r.append(ext);
    proof {
        assert(r@ =~= spec_output_path(workdir.deep_view(), sheet@, ext@));
    }
    r
}

/// Pairs sheets with output files by position, stopping at the shorter
/// list: exactly `min(len(names), len(outputs))` pairs come out, the
/// pair at `i` holding sheet `i` and output `i`; whatever lies beyond the
/// shorter length is ignored.
pub fn pair_sheets_with_outputs(names: &Vec<String>, outputs: &Vec<String>) -> (r: Vec<SheetOutput>)
    ensures
        r@.len() == if names@.len() <= outputs@.len() {
            names@.len()
        } else {
            outputs@.len()
        },
        forall|i: int|
            0 <= i < r@.len() ==> (#[trigger] r@[i]).sheet@ == names@[i]@ && r@[i].path@
                == outputs@[i]@,
{
    let count = if names.len() <= outputs.len() {
        names.len()
    } else {
        outputs.len()
    };
    let mut pairs: Vec<SheetOutput> = Vec::new();
    let mut i: usize = 0;
    while i < count
        invariant
            0 <= i <= count,
            count <= names@.len(),
            count <= outputs@.len(),
            pairs@.len() == i,
            forall|k: int|
                0 <= k < i ==> (#[trigger] pairs@[k]).sheet@ == names@[k]@ && pairs@[k].path@
                    == outputs@[k]@,
        decreases count - i,
    {
        pairs.push(
            SheetOutput {
                sheet: vstd::std_specs::vec::vec_index(names, i).clone(),
                path: vstd::std_specs::vec::vec_index(outputs, i).clone(),
            },
        );
        i = i + 1;
    }
    pairs
}

/// Copies an optional pattern.
fn clone_opt_string(o: &Option<String>) -> (r: Option<String>)
    ensures
        r == *o,
{
    match o {
        Some(s) => Some(s.clone()),
        None => None,
    }
}

/// Resolves one run into a plan.
///
/// A workbook without sheets is fatal at once, before the mode is even
/// resolved.  Otherwise the mode follows `spec_action_type`'s priority
/// order, and the plan is: the name listing; or every sheet surviving the
/// name filter, each bound for `<workdir>/<name>.<extension>`; or the
/// selected sheet (the first one when no selector was given) bound for
/// standard output; or the sheets paired positionally with the explicit
/// output files, the longer list cut to the shorter.
pub fn plan_run(opt: &Opt, sheetnames: &Vec<String>) -> (r: Result<RunPlan, RunError>)
    ensures
        r == Err::<RunPlan, RunError>(RunError::EmptyWorkbook) <==> sheetnames@.len() == 0,
        sheetnames@.len() > 0 ==> match spec_action_type(*opt) {
            ActionType::List => r == Ok::<RunPlan, RunError>(RunPlan::ListNames),
            ActionType::UseSheetNames => {
                &&& (r is Ok <==> spec_name_filter(*opt).valid())
                &&& (r matches Ok(plan) ==> plan matches RunPlan::ExportToFiles { pairs } && {
                    let kept = spec_name_filter(*opt).spec_filter(sheetnames.deep_view());
                    &&& pairs@.len() == kept.len()
                    &&& forall|i: int|
                        0 <= i < pairs@.len() ==> (#[trigger] pairs@[i]).sheet@ == kept[i]
                            && pairs@[i].path@ == spec_output_path(
                            opt.workdir.deep_view(),
                            kept[i],
                            spec_extension(opt.delimiter),
                        )
                })
                &&& (r matches Err(e) ==> e matches RunError::Pattern(_))
            },
            ActionType::OutputIsEmpty(inner) => match inner {
                InnerAction::SelectValid(sel) => match sel {
                    SheetSelector::ById(id) => {
                        &&& (r is Ok <==> (id as int) < sheetnames@.len())
                        &&& (r matches Ok(plan) ==> plan matches RunPlan::ExportToStdout { sheet }
                            && sheet@ == sheetnames@[id as int]@)
                        &&& (r matches Err(e) ==> e matches RunError::Selector(_))
                    },
                    SheetSelector::ByName(n) => {
                        &&& (r is Ok <==> exists|j: int|
                            0 <= j < sheetnames@.len() && sheetnames@[j]@ == n@)
                        &&& (r matches Ok(plan) ==> plan matches RunPlan::ExportToStdout { sheet }
                            && sheet@ == n@)
                        &&& (r matches Err(e) ==> e matches RunError::Selector(_))
                    },
                },
                InnerAction::SelectInvalid => r matches Ok(plan) && plan
                    matches RunPlan::ExportToStdout { sheet } && sheet@ == sheetnames@[0]@,
            },
            ActionType::DefaultToFile => r matches Ok(plan) && plan
                matches RunPlan::ExportToFiles { pairs } && {
                &&& pairs@.len() == if sheetnames@.len() <= opt.output@.len() {
                    sheetnames@.len()
                } else {
                    opt.output@.len()
                }
                &&& forall|i: int|
                    0 <= i < pairs@.len() ==> (#[trigger] pairs@[i]).sheet@ == sheetnames@[i]@
                        && pairs@[i].path@ == opt.output@[i]@
            },
        },
{
    if sheetnames.len() == 0 {
        return Err(RunError::EmptyWorkbook);
    }
    match ActionType::from(opt) {
        ActionType::List => Ok(RunPlan::ListNames),
        ActionType::UseSheetNames => {
            let filter = NameFilter {
                include_pattern: clone_opt_string(&opt.include_pattern),
                exclude_pattern: clone_opt_string(&opt.exclude_pattern),
                ignore_case: opt.ignore_case,
            };
            match filter.filter_names(sheetnames) {
                Err(e) => Err(RunError::Pattern(e)),
                Ok(kept) => {
                    let ext = opt.delimiter.to_file_extension();
                    let ghost kept_view = spec_name_filter(*opt).spec_filter(
                        sheetnames.deep_view(),
                    );
                    let mut pairs: Vec<SheetOutput> = Vec::new();
                    let count = kept.len();
                    let mut i: usize = 0;
                    while i < count
                        invariant
                            0 <= i <= count,
                            count == kept@.len(),
                            kept.deep_view() == kept_view,
                            kept_view.len() == kept@.len(),
                            ext@ == spec_extension(opt.delimiter),
                            pairs@.len() == i,
                            forall|k: int|
                                0 <= k < i ==> (#[trigger] pairs@[k]).sheet@ == kept_view[k]
                                    && pairs@[k].path@ == spec_output_path(
                                    opt.workdir.deep_view(),
                                    kept_view[k],
                                    spec_extension(opt.delimiter),
                                ),
                        decreases count - i,
                    {
                        let name = vstd::std_specs::vec::vec_index(&kept, i);
                        let path = output_path(&opt.workdir, name.as_str(), ext.as_str());
                        proof {
                            assert(kept.deep_view()[i as int] == name@);
                        }
                        pairs.push(SheetOutput { sheet: name.clone(), path });
                        i = i + 1;
                    }
                    Ok(RunPlan::ExportToFiles { pairs })
                },
            }
        },
        ActionType::OutputIsEmpty(inner) => match inner {
            InnerAction::SelectValid(select) => match select.find_in(sheetnames) {
                Ok(name) => Ok(RunPlan::ExportToStdout { sheet: name.clone() }),
                Err(e) => Err(RunError::Selector(e)),
            },
            InnerAction::SelectInvalid => Ok(
                RunPlan::ExportToStdout {
                    sheet: vstd::std_specs::vec::vec_index(sheetnames, 0).clone(),
                },
            ),
        },
        ActionType::DefaultToFile => Ok(
            RunPlan::ExportToFiles { pairs: pair_sheets_with_outputs(sheetnames, &opt.output) },
        ),
    }
}

} // verus!
