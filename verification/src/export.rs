//! Turning a sheet's rows into delimited text records.
//!
//! A row is a sequence of cells; each cell carries an emptiness flag and
//! its display text (the empty string where the cell has no displayable
//! text).  Without header mode every row becomes a record of all its cell
//! texts.  In header mode the first row is a width template: the width is
//! the position of its first empty cell (a fully populated first row is an
//! error), and every row — the first row again included — is cut down to
//! that many cells.  The records are then encoded by a delimiter-configured
//! CSV writer into one byte buffer.

use vstd::prelude::*;

verus! {

/// One spreadsheet cell as the exporter sees it: whether the cell is
/// empty, and its display text (empty string when it has none).
#[derive(Debug)]
pub struct SheetCell {
    pub empty: bool,
    pub text: String,
}

impl SheetCell {
    /// A non-empty cell with the given text.
    pub fn of_text(text: String) -> (r: SheetCell)
        ensures
            cell_view(r) == (false, text@),
    {
        SheetCell { empty: false, text }
    }

    /// An empty cell, whose text is the empty string.
    pub fn blank() -> (r: SheetCell)
        ensures
            cell_view(r) == (true, Seq::<char>::empty()),
    {
        SheetCell { empty: true, text: String::new() }
    }
}

/// A cell as a pair of plain values: its emptiness flag and its text.
pub open spec fn cell_view(c: SheetCell) -> (bool, Seq<char>) {
    (c.empty, c.text@)
}

/// A row of cells, as pairs.
pub open spec fn row_view(r: Seq<SheetCell>) -> Seq<(bool, Seq<char>)> {
    r.map_values(|c: SheetCell| cell_view(c))
}

/// A sheet's rows, as pairs.
pub open spec fn rows_view(rows: Seq<Vec<SheetCell>>) -> Seq<Seq<(bool, Seq<char>)>> {
    rows.map_values(|r: Vec<SheetCell>| row_view(r@))
}

/// The position of the first empty cell of a row, or `None` when no cell
/// is empty.
pub open spec fn spec_header_width(row: Seq<(bool, Seq<char>)>) -> Option<int>
    decreases row.len(),
{
    if row.len() == 0 {
        None
    } else if row[0].0 {
        Some(0)
    } else {
        match spec_header_width(row.drop_first()) {
            Some(w) => Some(w + 1),
            None => None,
        }
    }
}

/// The texts of a row's cells, the emptiness flags dropped.
pub open spec fn spec_row_texts(row: Seq<(bool, Seq<char>)>) -> Seq<Seq<char>> {
    row.map_values(|c: (bool, Seq<char>)| c.1)
}

/// The first `width` texts of a record; a shorter record stays whole.
pub open spec fn spec_truncate(texts: Seq<Seq<char>>, width: int) -> Seq<Seq<char>> {
    if texts.len() <= width {
        texts
    } else {
        texts.subrange(0, width)
    }
}

/// The records a sheet's rows yield.  Without header mode, every row's
/// full texts.  In header mode: nothing for an empty sheet; otherwise
/// every row cut down to the width of the first row's first empty cell,
/// or `None` when the first row has no empty cell.
pub open spec fn spec_records(rows: Seq<Seq<(bool, Seq<char>)>>, use_header: bool) -> Option<
    Seq<Seq<Seq<char>>>,
> {
    if !use_header {
        Some(rows.map_values(|r: Seq<(bool, Seq<char>)>| spec_row_texts(r)))
    } else if rows.len() == 0 {
        Some(Seq::empty())
    } else {
        match spec_header_width(rows[0]) {
            None => None,
            Some(w) => Some(
                rows.map_values(|r: Seq<(bool, Seq<char>)>| spec_truncate(spec_row_texts(r), w)),
            ),
        }
    }
}

/// All records have the width of the first one.  The CSV writer's strict
/// length check demands this of everything written through one writer.
pub open spec fn spec_uniform_width(records: Seq<Seq<Seq<char>>>) -> bool {
    forall|i: int| 0 <= i < records.len() ==> #[trigger] records[i].len() == records[0].len()
}

/// Why an export failed.
#[derive(Clone, Copy, Debug, PartialEq, Eq, Structural)]
pub enum ExportError {
    /// Header mode, and the first row has no empty cell to bound the width.
    HeaderWidth,
    /// A record's width differs from the first record's.
    RecordWidth,
    /// The requested sheet is not in the workbook.
    SheetNotFound,
}

/// A delimiter-configured CSV writer over an in-memory buffer.  The
/// writer's own type parameter names a trait Verus does not know, so the
/// writer lives opaquely inside this struct.
#[verifier::external_body]
pub struct CsvBuffer {
    inner: csv::Writer<Vec<u8>>,
}

/// What a CSV writer has been fed so far: its records, as cell texts.
pub uninterp spec fn writer_records(w: CsvBuffer) -> Seq<Seq<Seq<char>>>;

/// The field delimiter a CSV writer was configured with.
pub uninterp spec fn writer_delim(w: CsvBuffer) -> u8;

/// The writer's buffer ends at a record boundary: no failed write has
/// left stray fields behind.  A write that fails the length check has
/// already put its fields into the buffer without a terminator, so
/// nothing is claimed of a writer after a failed write; every wrapper
/// below demands a clean writer and only a successful write keeps it so.
pub uninterp spec fn writer_clean(w: CsvBuffer) -> bool;

/// The bytes the CSV encoding produces for these records under this
/// delimiter.  What `csv::Writer::into_inner` hands back depends on the
/// records written and the configuration alone.
pub uninterp spec fn csv_encoded(records: Seq<Seq<Seq<char>>>, delim: u8) -> Seq<u8>;

/// Relies on `csv::WriterBuilder::delimiter` and `from_writer`: a fresh
/// writer over an in-memory buffer, configured with this delimiter, with
/// no records written yet.
#[verifier::external_body]
fn csv_writer_new(delim: u8) -> (w: CsvBuffer)
    ensures
        writer_records(w) == Seq::<Seq<Seq<char>>>::empty(),
        writer_delim(w) == delim,
        writer_clean(w),
{
    CsvBuffer { inner: csv::WriterBuilder::new().delimiter(delim).from_writer(Vec::new()) }
}

/// Relies on `csv::Writer::write_record`: appends one record; with the
/// default strict length check a write to a clean in-memory writer fails
/// exactly when the record's width differs from the first record's, and
/// raises no other error.  A failed write leaves its fields in the
/// buffer, so only a successful one keeps the writer clean, and nothing
/// is claimed of the writer after a failure.
#[verifier::external_body]
fn csv_write_record(w: &mut CsvBuffer, rec: &Vec<String>) -> (ok: bool)
    requires
        writer_clean(*old(w)),
    ensures
        ok == (writer_records(*old(w)).len() == 0 || rec.deep_view().len() == writer_records(
            *old(w),
        )[0].len()),
        ok ==> writer_records(*final(w)) == writer_records(*old(w)).push(rec.deep_view()),
        ok ==> writer_delim(*final(w)) == writer_delim(*old(w)),
        ok ==> writer_clean(*final(w)),
{
    w.inner.write_record(rec).is_ok()
}

/// Relies on `csv::Writer::into_inner`: flushes a clean writer and hands
/// back the in-memory buffer; flushing into a `Vec<u8>` cannot fail, and
/// only written records put bytes in the buffer.
#[verifier::external_body]
fn csv_into_bytes(w: CsvBuffer) -> (r: Vec<u8>)
    requires
        writer_clean(w),
    ensures
        r@ == csv_encoded(writer_records(w), writer_delim(w)),
        writer_records(w).len() == 0 ==> r@.len() == 0,
{
    match w.inner.into_inner() {
        Ok(buf) => buf,
        Err(_) => Vec::new(),
    }
}

/// A `Some` header width points at an empty cell no earlier empty cell
/// precedes, and lies within the row.
proof fn lemma_header_width_bounds(row: Seq<(bool, Seq<char>)>)
    ensures
        spec_header_width(row) matches Some(w) ==> 0 <= w < row.len(),
    decreases row.len(),
{
    if row.len() > 0 && !row[0].0 {
        lemma_header_width_bounds(row.drop_first());
    }
}

/// The first empty cell's position is the header width.
proof fn lemma_header_width_at(row: Seq<(bool, Seq<char>)>, i: int)
    requires
        0 <= i < row.len(),
        row[i].0,
        forall|j: int| 0 <= j < i ==> !(#[trigger] row[j]).0,
    ensures
        spec_header_width(row) == Some(i),
    decreases i,
{
    if i > 0 {
        let rest = row.drop_first();
        assert(forall|j: int| 0 <= j < i - 1 ==> !(#[trigger] rest[j]).0);
        lemma_header_width_at(rest, i - 1);
    }
}

/// A row without an empty cell has no header width.
proof fn lemma_header_width_none(row: Seq<(bool, Seq<char>)>)
    requires
        forall|j: int| 0 <= j < row.len() ==> !(#[trigger] row[j]).0,
    ensures
        spec_header_width(row) is None,
    decreases row.len(),
{
    if row.len() > 0 {
        let rest = row.drop_first();
        assert(forall|j: int| 0 <= j < rest.len() ==> !(#[trigger] rest[j]).0);
        lemma_header_width_none(rest);
    }
}

/// In header mode, every record that comes out is cut down to the header
/// width: no record is longer than the position of the first row's first
/// empty cell.
pub proof fn lemma_header_mode_truncates(rows: Seq<Seq<(bool, Seq<char>)>>, w: int, i: int)
    requires
        rows.len() > 0,
        spec_header_width(rows[0]) == Some(w),
        0 <= i < rows.len(),
    ensures
        spec_records(rows, true) matches Some(recs) && recs[i].len() <= w,
{
    lemma_header_width_bounds(rows[0]);
}

/// Finds the position of the first empty cell of a row.
fn header_width(row: &Vec<SheetCell>) -> (r: Option<usize>)
    ensures
        match r {
            Some(w) => spec_header_width(row_view(row@)) == Some(w as int),
            None => spec_header_width(row_view(row@)) is None,
        },
{
    let count = row.len();
    let mut i: usize = 0;
    while i < count
        invariant
            0 <= i <= count,
            count == row@.len(),
            forall|j: int| 0 <= j < i ==> !(#[trigger] row_view(row@)[j]).0,
        decreases count - i,
    {
        if vstd::std_specs::vec::vec_index(row, i).empty {
            proof {
                lemma_header_width_at(row_view(row@), i as int);
            }
            return Some(i);
        }
        i = i + 1;
    }
    proof {
        lemma_header_width_none(row_view(row@));
    }
    None
}

/// Copies the first `limit` cell texts of a row.
fn row_texts_prefix(row: &Vec<SheetCell>, limit: usize) -> (r: Vec<String>)
    requires
        limit <= row@.len(),
    ensures
        r.deep_view() == spec_row_texts(row_view(row@)).subrange(0, limit as int),
{
    let mut out: Vec<String> = Vec::new();
    let mut i: usize = 0;
    while i < limit
        invariant
            0 <= i <= limit <= row@.len(),
            out@.len() == i,
            out.deep_view() =~= spec_row_texts(row_view(row@)).subrange(0, i as int),
        decreases limit - i,
    {
        let cell = vstd::std_specs::vec::vec_index(row, i);
        let text = cell.text.clone();
        out.push(text);
        proof {
            assert(row_view(row@)[i as int] == cell_view(row@[i as int]));
            assert(spec_row_texts(row_view(row@))[i as int] == row@[i as int].text@);
            assert(forall|k: int|
                0 <= k < out@.len() ==> out.deep_view()[k] == #[trigger] out@[k]@);
            assert(out.deep_view() =~= spec_row_texts(row_view(row@)).subrange(0, i + 1));
        }
        i = i + 1;
    }
    out
}

/// Converts rows to records.  Fails exactly when header mode finds no
/// empty cell in a non-empty sheet's first row; otherwise yields the
/// records `spec_records` describes.
pub fn rows_to_records(rows: &Vec<Vec<SheetCell>>, use_header: bool) -> (r: Result<
    Vec<Vec<String>>,
    ExportError,
>)
    ensures
        match spec_records(rows_view(rows@), use_header) {
            Some(recs) => r matches Ok(v) && v.deep_view() == recs,
            None => r == Err::<Vec<Vec<String>>, ExportError>(ExportError::HeaderWidth),
        },
{
    let count = rows.len();
    let width: Option<usize> = if use_header {
        if count == 0 {
            return Ok(Vec::new());
        }
        match header_width(vstd::std_specs::vec::vec_index(rows, 0)) {
            None => {
                return Err(ExportError::HeaderWidth);
            },
            Some(w) => Some(w),
        }
    } else {
        None
    };
    let ghost recs = spec_records(rows_view(rows@), use_header)->0;
    let mut out: Vec<Vec<String>> = Vec::new();
    let mut i: usize = 0;
    while i < count
        invariant
            0 <= i <= count,
            count == rows@.len(),
            spec_records(rows_view(rows@), use_header) == Some(recs),
            match width {
                Some(w) => use_header && count > 0 && spec_header_width(rows_view(rows@)[0])
                    == Some(w as int),
                None => !use_header,
            },
            recs.len() == rows@.len(),
            out@.len() == i,
            out.deep_view() =~= recs.subrange(0, i as int),
        decreases count - i,
    {
        let row = vstd::std_specs::vec::vec_index(rows, i);
        let limit: usize = match width {
            Some(w) => {
                if w < row.len() {
                    w
                } else {
                    row.len()
                }
            },
            None => row.len(),
        };
        let texts = row_texts_prefix(row, limit);
        proof {
            assert(rows_view(rows@)[i as int] == row_view(row@));
            assert(spec_row_texts(row_view(row@)).len() == row@.len());
            if width is Some {
                let w = width->0 as int;
                assert(spec_row_texts(row_view(row@)).subrange(0, limit as int)
                    =~= spec_truncate(spec_row_texts(row_view(row@)), w));
            } else {
                assert(spec_row_texts(row_view(row@)).subrange(0, limit as int)
                    =~= spec_row_texts(row_view(row@)));
            }
            assert(texts.deep_view() == recs[i as int]);
        }
        out.push(texts);
        proof {
            assert(out@[i as int] == texts);
            assert(forall|k: int|
                0 <= k < out@.len() ==> out.deep_view()[k] == #[trigger] out@[k].deep_view());
            assert(out.deep_view() =~= recs.subrange(0, i + 1));
        }
        i = i + 1;
    }
    proof {
        assert(recs.subrange(0, count as int) =~= recs);
    }
    Ok(out)
}

/// Writes the records through a CSV writer configured with this delimiter
/// into one byte buffer.  Succeeds exactly when all records share the
/// first record's width, which is what the writer's strict length check
/// demands.
pub fn records_to_csv(records: &Vec<Vec<String>>, delim: u8) -> (r: Result<Vec<u8>, ExportError>)
    ensures
        r is Ok <==> spec_uniform_width(records.deep_view()),
        r matches Ok(bytes) ==> bytes@ == csv_encoded(records.deep_view(), delim),
        r matches Ok(bytes) ==> (records.deep_view().len() == 0 ==> bytes@.len() == 0),
        r matches Err(e) ==> e == ExportError::RecordWidth,
{
    let mut w = csv_writer_new(delim);
    let count = records.len();
    let mut i: usize = 0;
    proof {
        assert(records.deep_view().subrange(0, 0) =~= Seq::<Seq<Seq<char>>>::empty());
    }
    while i < count
        invariant
            0 <= i <= count,
            count == records@.len(),
            records.deep_view().len() == records@.len(),
            writer_records(w) == records.deep_view().subrange(0, i as int),
            writer_delim(w) == delim,
            writer_clean(w),
            spec_uniform_width(records.deep_view().subrange(0, i as int)),
        decreases count - i,
    {
        let rec = vstd::std_specs::vec::vec_index(records, i);
        proof {
            assert(records.deep_view()[i as int] == rec.deep_view());
        }
        let ok = csv_write_record(&mut w, rec);
        if !ok {
            proof {
                let prefix = records.deep_view().subrange(0, i as int);
                assert(prefix.len() > 0);
                assert(records.deep_view()[0] == prefix[0]);
                assert(records.deep_view()[i as int].len() != records.deep_view()[0].len());
            }
            return Err(ExportError::RecordWidth);
        }
        proof {
            let prefix = records.deep_view().subrange(0, i as int);
            let next = records.deep_view().subrange(0, i + 1);
            assert(next =~= prefix.push(rec.deep_view()));
            if prefix.len() > 0 {
                assert(next[0] == prefix[0]);
            }
            assert(spec_uniform_width(next));
        }
        i = i + 1;
    }
    proof {
        assert(records.deep_view().subrange(0, count as int) =~= records.deep_view());
    }
    Ok(csv_into_bytes(w))
}

/// Converts a sheet's rows into the encoded delimited text: the records
/// of `rows_to_records`, encoded as `records_to_csv` encodes them.  The
/// errors come exactly as those two describe.
pub fn rows_to_csv(rows: &Vec<Vec<SheetCell>>, delim: u8, use_header: bool) -> (r: Result<
    Vec<u8>,
    ExportError,
>)
    ensures
        match spec_records(rows_view(rows@), use_header) {
            None => r == Err::<Vec<u8>, ExportError>(ExportError::HeaderWidth),
            Some(recs) => {
                if spec_uniform_width(recs) {
                    r matches Ok(bytes) && bytes@ == csv_encoded(recs, delim) && (recs.len() == 0
                        ==> bytes@.len() == 0)
                } else {
                    r == Err::<Vec<u8>, ExportError>(ExportError::RecordWidth)
                }
            },
        },
{
    match rows_to_records(rows, use_header) {
        Ok(records) => records_to_csv(&records, delim),
        Err(e) => Err(e),
    }
}

} // verus!
