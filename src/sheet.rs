//! Spreadsheet cells rendered as text, rows joined with commas, and the
//! chunks and whole-workbook text of a set of sheets.
use vstd::prelude::*;

use crate::chunk::{
    items_view, error_text, Chunk, ChunkView, ErrorView, ExtractError, Item, MetaView, Metadata,
};
use crate::numtext::{i64_text, padded, push_padded, signed_decimal};

verus! {

/// A calendar date and time of day as a spreadsheet cell holds it.
#[derive(Debug, Clone, Copy, PartialEq, Eq, Structural)]
pub struct DateTime {
    pub year: u32,
    pub month: u32,
    pub day: u32,
    pub hour: u32,
    pub minute: u32,
    pub second: u32,
}

/// One spreadsheet cell.
#[derive(Debug)]
pub enum Cell {
    Empty,
    Text(String),
    Int(i64),
    /// A floating-point value, already in its shortest decimal form that
    /// reads back to the same value.
    Float(String),
    Bool(bool),
    DateTime(DateTime),
    /// Any other content: error values, durations, unparsed timestamps.
    Other,
}

/// One sheet of a workbook: its name and its rows, or why they could not
/// be read.
#[derive(Debug)]
pub struct Sheet {
    pub name: String,
    pub rows: Result<Vec<Vec<Cell>>, String>,
}

/// What `str::trim` makes of a text.
pub uninterp spec fn trimmed(s: Seq<char>) -> Seq<char>;

/// `DD.MM.YYYY HH:MM:SS`.
pub open spec fn datetime_text(d: DateTime) -> Seq<char> {
    padded(d.day as nat, 2) + "."@ + padded(d.month as nat, 2) + "."@ + padded(d.year as nat, 4)
        + " "@ + padded(d.hour as nat, 2) + ":"@ + padded(d.minute as nat, 2) + ":"@ + padded(
        d.second as nat,
        2,
    )
}

/// The text of a cell.
pub open spec fn cell_str(c: Cell) -> Seq<char> {
    match c {
        Cell::Empty => Seq::empty(),
        Cell::Text(s) => trimmed(s@),
        Cell::Int(i) => signed_decimal(i as int),
        Cell::Float(s) => s@,
        Cell::Bool(b) => if b {
            "true"@
        } else {
            "false"@
        },
        Cell::DateTime(d) => datetime_text(d),
        Cell::Other => Seq::empty(),
    }
}

/// The parts joined with single commas.
pub open spec fn comma_join(parts: Seq<Seq<char>>) -> Seq<char>
    decreases parts.len(),
{
    if parts.len() == 0 {
        Seq::empty()
    } else if parts.len() == 1 {
        parts[0]
    } else {
        comma_join(parts.drop_last()) + ","@ + parts.last()
    }
}

/// The text of a row: its cells' texts joined with commas.
pub open spec fn row_str(row: Seq<Cell>) -> Seq<char> {
    comma_join(row.map_values(|c: Cell| cell_str(c)))
}

/// The chunk of the row at `index` (0-based) of a sheet.
pub open spec fn row_chunk(sheet: Seq<char>, row: Seq<Cell>, index: int) -> ChunkView {
    ChunkView {
        content: row_str(row),
        meta: MetaView::Spreadsheet { sheet, row: (index + 1) as nat },
    }
}

/// The stream items of one sheet: a chunk per row, or one in-band error.
pub open spec fn sheet_item_views(s: Sheet) -> Seq<Result<ChunkView, ErrorView>> {
    match s.rows {
        Ok(rows) => Seq::new(rows@.len(), |j: int| Ok(row_chunk(s.name@, rows@[j]@, j))),
        Err(m) => seq![Err(ErrorView::Sheet { sheet: s.name@, message: m@ })],
    }
}

/// The stream items of a workbook: those of its sheets, in sheet order.
pub open spec fn workbook_item_views(sheets: Seq<Sheet>) -> Seq<Result<ChunkView, ErrorView>>
    decreases sheets.len(),
{
    if sheets.len() == 0 {
        Seq::empty()
    } else {
        workbook_item_views(sheets.drop_last()) + sheet_item_views(sheets.last())
    }
}

/// How many stream items a sheet gives: one per row, or one error.
pub open spec fn sheet_item_count(s: Sheet) -> nat {
    match s.rows {
        Ok(rows) => rows@.len(),
        Err(_) => 1,
    }
}

/// How many stream items the sheets give together.
pub open spec fn item_count(sheets: Seq<Sheet>) -> nat
    decreases sheets.len(),
{
    if sheets.len() == 0 {
        0
    } else {
        item_count(sheets.drop_last()) + sheet_item_count(sheets.last())
    }
}

proof fn lemma_prefix_count(sheets: Seq<Sheet>, i: int)
    requires
        0 <= i < sheets.len(),
    ensures
        item_count(sheets.subrange(0, i)) + sheet_item_count(sheets[i]) <= item_count(sheets),
    decreases sheets.len(),
{
    let w = sheets.drop_last();
    if i == sheets.len() - 1 {
        assert(sheets.subrange(0, i) =~= w);
    } else {
        lemma_prefix_count(w, i);
        assert(sheets.subrange(0, i) =~= w.subrange(0, i));
    }
}

/// A workbook gives exactly one item per row of each readable sheet, and
/// one per unreadable sheet; the items of sheet `i` follow those of the
/// sheets before it, and its row `j` (0-based) is the chunk tagged with the
/// sheet's name and row number `j + 1`.
pub proof fn lemma_workbook_rows_in_order(sheets: Seq<Sheet>)
    ensures
        workbook_item_views(sheets).len() == item_count(sheets),
        forall|i: int, j: int|
            #![trigger workbook_item_views(sheets)[item_count(sheets.subrange(0, i)) + j]]
            0 <= i < sheets.len() && sheets[i].rows is Ok && 0 <= j < sheets[i].rows->Ok_0@.len()
                ==> workbook_item_views(sheets)[item_count(sheets.subrange(0, i)) + j] == Ok::<
                ChunkView,
                ErrorView,
            >(row_chunk(sheets[i].name@, sheets[i].rows->Ok_0@[j]@, j)),
    decreases sheets.len(),
{
    if sheets.len() > 0 {
        let w = sheets.drop_last();
        lemma_workbook_rows_in_order(w);
        let all = workbook_item_views(sheets);
        let head = workbook_item_views(w);
        let n = sheets.len() - 1;
        assert forall|i: int, j: int|
            0 <= i < sheets.len() && sheets[i].rows is Ok && 0 <= j < sheets[i].rows->Ok_0@.len()
            implies all[item_count(sheets.subrange(0, i)) + j] == Ok::<ChunkView, ErrorView>(
            row_chunk(sheets[i].name@, sheets[i].rows->Ok_0@[j]@, j),
        ) by {
            if i < n {
                assert(sheets.subrange(0, i) =~= w.subrange(0, i));
                assert(w[i] == sheets[i]);
                lemma_prefix_count(w, i);
                assert(all[item_count(sheets.subrange(0, i)) + j] == head[item_count(
                    w.subrange(0, i),
                ) + j]);
            } else {
                assert(sheets.subrange(0, i) =~= w);
                assert(all[item_count(w) + j] == sheet_item_views(sheets.last())[j]);
            }
        }
    } else {
        assert forall|i: int, j: int|
            0 <= i < sheets.len() && sheets[i].rows is Ok && 0 <= j < sheets[i].rows->Ok_0@.len()
            implies workbook_item_views(sheets)[item_count(sheets.subrange(0, i)) + j] == Ok::<
            ChunkView,
            ErrorView,
        >(row_chunk(sheets[i].name@, sheets[i].rows->Ok_0@[j]@, j)) by {}
    }
}

/// Each row's text followed by a newline.
pub open spec fn rows_text(rows: Seq<Vec<Cell>>) -> Seq<char>
    decreases rows.len(),
{
    if rows.len() == 0 {
        Seq::empty()
    } else {
        rows_text(rows.drop_last()) + row_str(rows.last()@) + "\n"@
    }
}

/// The whole-file text of a sheet: its name, a colon and a newline, then
/// its rows; or a line that says why it could not be read.
pub open spec fn sheet_text(s: Sheet) -> Seq<char> {
    match s.rows {
        Ok(rows) => s.name@ + ":\n"@ + rows_text(rows@),
        Err(m) => error_text(ErrorView::Sheet { sheet: s.name@, message: m@ }) + "\n"@,
    }
}

pub open spec fn workbook_text_of(sheets: Seq<Sheet>) -> Seq<char>
    decreases sheets.len(),
{
    if sheets.len() == 0 {
        Seq::empty()
    } else {
        workbook_text_of(sheets.drop_last()) + sheet_text(sheets.last())
    }
}

/// Relies on `str::trim`: the text without leading and trailing white space.
#[verifier::external_body]
fn trim_text(s: &str) -> (r: String)
    ensures
        r@ == trimmed(s@),
{
    s.trim().to_string()
}

/// The text of a cell: empty for empty and unrecognised cells, the trimmed
/// text of a string, the decimal form of a number, `true` or `false`, and
/// `DD.MM.YYYY HH:MM:SS` for a date and time.
pub fn cell_text(c: &Cell) -> (r: String)
    ensures
        r@ == cell_str(*c),
{
    match c {
        Cell::Empty => String::new(),
        Cell::Text(s) => trim_text(s.as_str()),
        Cell::Int(i) => i64_text(*i),
        Cell::Float(s) => s.clone(),
        Cell::Bool(b) => {
            if *b {
                proof { reveal_strlit("true"); }
                "true".to_owned()
            } else {
                proof { reveal_strlit("false"); }
                "false".to_owned()
            }
        },
        Cell::DateTime(d) => {
            let mut out = String::new();
            push_padded(&mut out, d.day as u64, 2);
            out.append(".");
            push_padded(&mut out, d.month as u64, 2);
            out.append(".");
            push_padded(&mut out, d.year as u64, 4);
            out.append(" ");
            push_padded(&mut out, d.hour as u64, 2);
            out.append(":");
            push_padded(&mut out, d.minute as u64, 2);
            out.append(":");
            push_padded(&mut out, d.second as u64, 2);
            assert(out@ =~= datetime_text(*d));
            out
        },
        Cell::Other => String::new(),
    }
}

/// The cells' texts joined with single commas.
pub fn row_text(row: &Vec<Cell>) -> (r: String)
    ensures
        r@ == row_str(row@),
{
    let mut out = String::new();
    let mut i: usize = 0;
    while i < row.len()
        invariant
            i <= row@.len(),
            out@ == comma_join(row@.subrange(0, i as int).map_values(|c: Cell| cell_str(c))),
        decreases row@.len() - i,
    {
        let t = cell_text(&row[i]);
        let ghost before = row@.subrange(0, i as int).map_values(|c: Cell| cell_str(c));
        let ghost after = row@.subrange(0, i + 1).map_values(|c: Cell| cell_str(c));
        assert(after.drop_last() =~= before);
        if i > 0 {
            out.append(",");
        }
        out.append(t.as_str());
        i = i + 1;
        assert(out@ =~= comma_join(after));
    }
    assert(row@.subrange(0, row@.len() as int) =~= row@);
    out
}

/// The stream items of one sheet: one chunk per row, tagged with the
/// sheet's name and the row's 1-based number; or, when the sheet could not
/// be read, a single in-band error that names it.
pub fn sheet_items(sheet: &Sheet) -> (r: Vec<Item>)
    ensures
        items_view(r@) == sheet_item_views(*sheet),
{
    let mut out: Vec<Item> = Vec::new();
    match &sheet.rows {
        Ok(rows) => {
            let mut j: usize = 0;
            while j < rows.len()
                invariant
                    j <= rows@.len(),
                    sheet.rows == Ok::<Vec<Vec<Cell>>, String>(*rows),
                    out@.len() == j,
                    forall|k: int|
                        0 <= k < j ==> #[trigger] items_view(out@)[k] == Ok::<
                            ChunkView,
                            ErrorView,
                        >(row_chunk(sheet.name@, rows@[k]@, k)),
                decreases rows@.len() - j,
            {
                let content = row_text(&rows[j]);
                let chunk = Chunk {
                    content,
                    metadata: Metadata::Spreadsheet {
                        sheet_name: sheet.name.clone(),
                        row_number: j + 1,
                    },
                };
                let ghost before = out@;
                out.push(Ok(chunk));
                proof {
                    assert(items_view(out@) =~= items_view(before).push(
                        Ok::<ChunkView, ErrorView>(row_chunk(sheet.name@, rows@[j as int]@, j as int)),
                    ));
                }
                j = j + 1;
            }
            assert(items_view(out@) =~= sheet_item_views(*sheet));
        },
        Err(m) => {
            out.push(Err(ExtractError::Sheet { sheet_name: sheet.name.clone(), message: m.clone() }));
            assert(items_view(out@) =~= sheet_item_views(*sheet));
        },
    }
    out
}

/// The stream items of a whole workbook, sheet after sheet in the order
/// given.
pub fn workbook_items(sheets: &Vec<Sheet>) -> (r: Vec<Item>)
    ensures
        items_view(r@) == workbook_item_views(sheets@),
{
    let mut out: Vec<Item> = Vec::new();
    let mut i: usize = 0;
    while i < sheets.len()
        invariant
            i <= sheets@.len(),
            items_view(out@) == workbook_item_views(sheets@.subrange(0, i as int)),
        decreases sheets@.len() - i,
    {
        let mut more = sheet_items(&sheets[i]);
        let ghost before = out@;
        let ghost added = more@;
        out.append(&mut more);
        proof {
            let next = sheets@.subrange(0, i + 1);
            assert(next.drop_last() =~= sheets@.subrange(0, i as int));
            assert(items_view(out@) =~= items_view(before) + items_view(added));
        }
        i = i + 1;
    }
    assert(sheets@.subrange(0, sheets@.len() as int) =~= sheets@);
    out
}

/// The whole-file text of a workbook: for each sheet in order, its name
/// and a colon on a line, then one line per row; a sheet that could not be
/// read gives one line that says so.
pub fn workbook_text(sheets: &Vec<Sheet>) -> (r: String)
    ensures
        r@ == workbook_text_of(sheets@),
{
    let mut out = String::new();
    let mut i: usize = 0;
    while i < sheets.len()
        invariant
            i <= sheets@.len(),
            out@ == workbook_text_of(sheets@.subrange(0, i as int)),
        decreases sheets@.len() - i,
    {
        let sheet = &sheets[i];
        let ghost before = out@;
        match &sheet.rows {
            Ok(rows) => {
                out.append(sheet.name.as_str());
                out.append(":\n");
                let ghost head = out@;
                let mut j: usize = 0;
                while j < rows.len()
                    invariant
                        j <= rows@.len(),
                        out@ == head + rows_text(rows@.subrange(0, j as int)),
                    decreases rows@.len() - j,
                {
                    let t = row_text(&rows[j]);
                    out.append(t.as_str());
                    out.append("\n");
                    proof {
                        let next = rows@.subrange(0, j + 1);
                        assert(next.drop_last() =~= rows@.subrange(0, j as int));
                        assert(out@ =~= head + rows_text(next));
                    }
                    j = j + 1;
                }
                assert(rows@.subrange(0, rows@.len() as int) =~= rows@);
                assert(out@ =~= before + sheet_text(*sheet));
            },
            Err(m) => {
                let e = ExtractError::Sheet { sheet_name: sheet.name.clone(), message: m.clone() };
                let line = e.message();
                out.append(line.as_str());
                out.append("\n");
                assert(out@ =~= before + sheet_text(*sheet));
            },
        }
        proof {
            let next = sheets@.subrange(0, i + 1);
            assert(next.drop_last() =~= sheets@.subrange(0, i as int));
        }
        i = i + 1;
    }
    assert(sheets@.subrange(0, sheets@.len() as int) =~= sheets@);
    out
}

} // verus!
