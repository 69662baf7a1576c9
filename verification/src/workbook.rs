//! The parsed workbook, seen through a narrow window.
//!
//! The spreadsheet container is decoded by the `ooxml` crate; this module
//! only reads two things out of the decoded workbook: its ordered sheet
//! names, and, per sheet, the grid of cells, each cell reduced to its
//! emptiness flag and its display text.  Everything downstream works on
//! those plain values.

use vstd::prelude::*;

use crate::export::rows_view;
use crate::export::rows_to_csv;
use crate::export::ExportError;
use crate::export::SheetCell;
use crate::delimiter::Delimiter;

verus! {

#[verifier::external_type_specification]
#[verifier::external_body]
pub struct ExWorkbook(ooxml::document::Workbook);

/// The workbook's sheet names, in loading order.
pub uninterp spec fn wb_sheet_names(wb: ooxml::document::Workbook) -> Seq<Seq<char>>;

/// The cells of each sheet, by sheet name: per row, each cell's emptiness
/// flag and its display text (the empty string where it has none).
pub uninterp spec fn wb_sheet_cells(wb: ooxml::document::Workbook) -> Map<
    Seq<char>,
    Seq<Seq<(bool, Seq<char>)>>,
>;

/// Every cell of this sheet decodes: `ooxml`'s cell readers abort on a
/// cell type they do not carry (boolean, formula-string and error cells),
/// on a dangling shared-string or style id, on a date-formatted cell
/// whose raw value is not a date, and on a worksheet part without sheet
/// data.  This names the workbooks and sheets where none of that happens;
/// only those are admitted below, so an aborting input is outside every
/// contract here, and a caller that ignores the bound aborts inside the
/// reader with the reader's own message.
pub uninterp spec fn wb_sheet_decodable(wb: ooxml::document::Workbook, name: Seq<char>) -> bool;

/// Relies on `ooxml`'s `Workbook::get_worksheet_by_name`, which finds a
/// worksheet exactly when the name is one of the sheet names, and on
/// `Worksheet::rows` with `Cell::is_empty` and `Cell::to_string`: each
/// cell becomes its emptiness flag and its display text, the empty string
/// standing in where the cell has none.  The cell readers return at all
/// only on a decodable sheet, so such sheets are required, and a normal
/// return vouches for the sheet it read.
#[verifier::external_body]
fn sheet_cells(wb: &ooxml::document::Workbook, name: &str) -> (r: Option<Vec<Vec<SheetCell>>>)
    requires
        wb_sheet_decodable(*wb, name@),
    ensures
        r is Some <==> wb_sheet_names(*wb).contains(name@),
        r is Some ==> wb_sheet_decodable(*wb, name@),
        r matches Some(rows) ==> rows_view(rows@) == wb_sheet_cells(*wb)[name@],
{
    wb.get_worksheet_by_name(name).map(|ws| {
        ws.rows().map(|row| {
            row.map(|c| SheetCell {
                empty: c.is_empty(),
                text: c.to_string().unwrap_or_default(),
            }).collect()
        }).collect()
    })
}

/// Exports one sheet of the workbook as delimited text: the sheet's rows,
/// converted to records and encoded as `rows_to_csv` states, for the
/// sheet this name picks out of the workbook.  Fails with `SheetNotFound`
/// exactly when the workbook has no sheet of this name; the other errors
/// come as `rows_to_csv` states them.  Only a sheet whose cells the
/// reader can decode is admitted (see `wb_sheet_decodable`).
pub fn worksheet_to_csv(wb: &ooxml::document::Workbook, sheet: &str, delim: Delimiter, header: bool) -> (r:
    Result<Vec<u8>, ExportError>)
    requires
        wb_sheet_decodable(*wb, sheet@),
    ensures
        !wb_sheet_names(*wb).contains(sheet@) ==> r == Err::<Vec<u8>, ExportError>(
            ExportError::SheetNotFound,
        ),
        wb_sheet_names(*wb).contains(sheet@) ==> (match crate::export::spec_records(
            wb_sheet_cells(*wb)[sheet@],
            header,
        ) {
            None => r == Err::<Vec<u8>, ExportError>(ExportError::HeaderWidth),
            Some(recs) => {
                if crate::export::spec_uniform_width(recs) {
                    r matches Ok(bytes) && bytes@ == crate::export::csv_encoded(recs, delim.0)
                        && (recs.len() == 0 ==> bytes@.len() == 0)
                } else {
                    r == Err::<Vec<u8>, ExportError>(ExportError::RecordWidth)
                }
            },
        }),
{
    match sheet_cells(wb, sheet) {
        None => Err(ExportError::SheetNotFound),
        Some(rows) => rows_to_csv(&rows, delim.as_byte(), header),
    }
}

} // verus!
