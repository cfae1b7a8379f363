//! Spreadsheet export.
//!
//! The exporter lays the record table out as a grid of text cells: one
//! fixed header row, then one row per record in input order, with the value
//! column rendered to exactly two decimal places and the date column as
//! `YYYY-MM-DD HH:MM:SS`.  The grid is written into an in-memory workbook of
//! an outside spreadsheet crate through trusted wrappers whose contracts
//! track the cell contents; saving the workbook to disk is left to the
//! caller, along with the computed target path
//! `<download dir>/export_<YYYYMMDD_HHMMSS>.xlsx`.

use crate::clock::Timestamp;
use crate::data::TableData;
use crate::decimal::{dec_rep, pad2, pad4, lemma_pad2_len, u64_to_string, u64_to_pad2, u64_to_pad4};
use rust_xlsxwriter::Workbook;
use rust_xlsxwriter::Worksheet;
use vstd::prelude::*;
use vstd::string::StrSliceExecFns;
use vstd::string::StringExecFns;

verus! {

/// Why an export was not produced: the grid exceeds a hard limit of the
/// spreadsheet file format.
#[derive(Clone, Copy, Debug, PartialEq, Eq, Structural)]
pub enum ExportError {
    /// More rows than a worksheet can hold.
    TooManyRows,
    /// A record name longer than a cell can hold.
    NameTooLong,
}

/// Rows a worksheet can hold, the header row included.
pub const MAX_SHEET_ROWS: u32 = 1_048_576;

/// Characters a single text cell can hold.
pub const MAX_CELL_CHARS: usize = 32_767;

/// The value column text: the whole part, a point, and exactly two
/// fractional digits, the value being a count of hundredths.
pub open spec fn value_text(v: nat) -> Seq<char> {
    dec_rep(v / 100) + seq!['.'] + pad2(v % 100)
}

/// The date column text: `YYYY-MM-DD HH:MM:SS`.
pub open spec fn timestamp_text(ts: Timestamp) -> Seq<char> {
    pad4(ts.year as nat) + seq!['-'] + pad2(ts.month as nat) + seq!['-'] + pad2(ts.day as nat)
        + seq![' '] + pad2(ts.hour as nat) + seq![':'] + pad2(ts.minute as nat) + seq![':']
        + pad2(ts.second as nat)
}

/// The export file name: `export_<YYYYMMDD_HHMMSS>.xlsx`.
pub open spec fn filename_text(ts: Timestamp) -> Seq<char> {
    "export_"@ + pad4(ts.year as nat) + pad2(ts.month as nat) + pad2(ts.day as nat) + seq!['_']
        + pad2(ts.hour as nat) + pad2(ts.minute as nat) + pad2(ts.second as nat) + ".xlsx"@
}

/// The full target path: the download directory if one is known, the
/// current directory otherwise, then the file name.
pub open spec fn path_text(dir: Option<Seq<char>>, ts: Timestamp) -> Seq<char> {
    (match dir {
        Some(d) => d,
        None => "."@,
    }) + seq!['/'] + filename_text(ts)
}

/// The view of an optional directory string.
pub open spec fn opt_str_view(dir: Option<String>) -> Option<Seq<char>> {
    match dir {
        Some(d) => Some(d@),
        None => None,
    }
}

/// Render a value held in hundredths with exactly two decimal places.
pub fn render_value(v: u64) -> (s: String)
    ensures
        s@ == value_text(v as nat),
{
    let mut s = u64_to_string(v / 100);
    s.append(".");
    s.append(u64_to_pad2(v % 100).as_str());
    proof {
        reveal_strlit(".");
        assert(s@ =~= value_text(v as nat));
    }
    s
}

/// The value text always shows exactly two digits after the point.
pub proof fn lemma_value_two_decimals(v: nat)
    ensures
        value_text(v).len() >= 4,
        value_text(v)[value_text(v).len() - 3] == '.',
        value_text(v).len() - 3 == dec_rep(v / 100).len(),
{
    lemma_pad2_len(v % 100);
    crate::decimal::lemma_dec_rep_nonempty(v / 100);
}

/// Render a timestamp as `YYYY-MM-DD HH:MM:SS`.
pub fn render_timestamp(ts: &Timestamp) -> (s: String)
    ensures
        s@ == timestamp_text(*ts),
{
    let mut s = u64_to_pad4(ts.year as u64);
    s.append("-");
    s.append(u64_to_pad2(ts.month as u64).as_str());
    s.append("-");
    s.append(u64_to_pad2(ts.day as u64).as_str());
    s.append(" ");
    s.append(u64_to_pad2(ts.hour as u64).as_str());
    s.append(":");
    s.append(u64_to_pad2(ts.minute as u64).as_str());
    s.append(":");
    s.append(u64_to_pad2(ts.second as u64).as_str());
    proof {
        reveal_strlit("-");
        reveal_strlit(" ");
        reveal_strlit(":");
        assert(s@ =~= timestamp_text(*ts));
    }
    s
}

/// The file name for an export made at time `ts`.
pub fn export_filename(ts: &Timestamp) -> (s: String)
    ensures
        s@ == filename_text(*ts),
{
    let mut s = String::from_str("export_");
    s.append(u64_to_pad4(ts.year as u64).as_str());
    s.append(u64_to_pad2(ts.month as u64).as_str());
    s.append(u64_to_pad2(ts.day as u64).as_str());
    s.append("_");
    s.append(u64_to_pad2(ts.hour as u64).as_str());
    s.append(u64_to_pad2(ts.minute as u64).as_str());
    s.append(u64_to_pad2(ts.second as u64).as_str());
    s.append(".xlsx");
    proof {
        reveal_strlit("_");
        assert(s@ =~= filename_text(*ts));
    }
    s
}

/// The target path for an export made at time `ts`: the given directory,
/// or the current directory when none is known.
pub fn export_path(dir: &Option<String>, ts: &Timestamp) -> (s: String)
    ensures
        s@ == path_text(opt_str_view(*dir), *ts),
{
    let mut s = match dir {
        Some(d) => d.clone(),
        None => String::from_str("."),
    };
    s.append("/");
    s.append(export_filename(ts).as_str());
    proof {
        reveal_strlit("/");
        assert(s@ =~= path_text(opt_str_view(*dir), *ts));
    }
    s
}

/// A sheet with no cells at all.
pub open spec fn no_cells() -> Map<(int, int), Seq<char>> {
    Map::empty()
}

/// A workbook with no sheets.
pub open spec fn no_sheets() -> Seq<Map<(int, int), Seq<char>>> {
    Seq::empty()
}

/// The header cells: row zero, four fixed column titles.
pub open spec fn header_cells() -> Map<(int, int), Seq<char>> {
    no_cells().insert((0, 0), "ID"@).insert((0, 1), "Name"@).insert((0, 2), "Value"@).insert(
        (0, 3),
        "Date"@,
    )
}

/// Insert a text cell, except that an empty text leaves the sheet as it is
/// (the spreadsheet writer stores no cell for an unformatted empty string).
pub open spec fn insert_cell(
    m: Map<(int, int), Seq<char>>,
    r: int,
    c: int,
    t: Seq<char>,
) -> Map<(int, int), Seq<char>> {
    if t.len() == 0 {
        m
    } else {
        m.insert((r, c), t)
    }
}

/// The four cells of one record, written into sheet row `r`.
pub open spec fn row_cells(
    m: Map<(int, int), Seq<char>>,
    row: TableData,
    r: int,
) -> Map<(int, int), Seq<char>> {
    insert_cell(
        insert_cell(
            insert_cell(insert_cell(m, r, 0, dec_rep(row.id as nat)), r, 1, row.name@),
            r,
            2,
            value_text(row.value as nat),
        ),
        r,
        3,
        timestamp_text(row.date),
    )
}

/// The sheet contents after the header and the first `n` records.
pub open spec fn sheet_cells_upto(rows: Seq<TableData>, n: int) -> Map<(int, int), Seq<char>>
    decreases n,
{
    if n <= 0 {
        header_cells()
    } else {
        row_cells(sheet_cells_upto(rows, n - 1), rows[n - 1], n)
    }
}

/// The full sheet contents for a record list: the header row, then one row
/// per record in input order.
pub open spec fn sheet_cells(rows: Seq<TableData>) -> Map<(int, int), Seq<char>> {
    sheet_cells_upto(rows, rows.len() as int)
}

#[verifier::external_type_specification]
#[verifier::external_body]
pub struct ExWorksheet(Worksheet);

#[verifier::external_type_specification]
#[verifier::external_body]
pub struct ExWorkbook(Workbook);

/// The text cells a worksheet holds, keyed by (row, column).
pub uninterp spec fn ws_cells(ws: Worksheet) -> Map<(int, int), Seq<char>>;

/// The sheets a workbook holds, each as its cell contents, in order.
pub uninterp spec fn wb_sheets(wb: Workbook) -> Seq<Map<(int, int), Seq<char>>>;

/// Relies on `rust_xlsxwriter::Worksheet::new`: a fresh worksheet holds no
/// cells.
#[verifier::external_body]
fn worksheet_new() -> (ws: Worksheet)
    ensures
        ws_cells(ws) == no_cells(),
{
    Worksheet::new()
}

/// Relies on `rust_xlsxwriter::Worksheet::write_string`: within the format's
/// row, column and string-length limits it stores the text in that cell and
/// returns success, and it ignores an unformatted empty string.
#[verifier::external_body]
fn worksheet_write_string(ws: &mut Worksheet, row: u32, col: u16, text: &str)
    requires
        row < MAX_SHEET_ROWS,
        col < 16_384,
        text@.len() <= MAX_CELL_CHARS,
    ensures
        text@.len() > 0 ==> ws_cells(*final(ws)) == ws_cells(*old(ws)).insert(
            (row as int, col as int),
            text@,
        ),
        text@.len() == 0 ==> ws_cells(*final(ws)) == ws_cells(*old(ws)),
{
    let _ = ws.write_string(row, col, text);
}

/// Relies on `rust_xlsxwriter::Workbook::new`: a fresh workbook holds no
/// worksheets.
#[verifier::external_body]
fn workbook_new() -> (wb: Workbook)
    ensures
        wb_sheets(wb) == no_sheets(),
{
    Workbook::new()
}

/// Relies on `rust_xlsxwriter::Workbook::push_worksheet`: appends the given
/// sheet to the workbook (naming it if it has no name yet).
#[verifier::external_body]
fn workbook_push_worksheet(wb: &mut Workbook, ws: Worksheet)
    ensures
        wb_sheets(*final(wb)) == wb_sheets(*old(wb)).push(ws_cells(ws)),
{
    wb.push_worksheet(ws);
}

/// Relies on `dirs::download_dir`: the platform download directory, if one
/// is known.  Which directory comes back, if any, depends on the machine,
/// so nothing is promised of the value.
#[verifier::external_body]
fn download_dir_string() -> (r: Option<String>)
{
    dirs::download_dir().map(|p| p.to_string_lossy().to_string())
}

/// The date text of any timestamp is far below the cell limit.
proof fn lemma_timestamp_text_len(ts: Timestamp)
    ensures
        timestamp_text(ts).len() <= 150,
{
    crate::decimal::lemma_pad4_le(ts.year as nat);
    crate::decimal::lemma_pad2_le(ts.month as nat);
    crate::decimal::lemma_pad2_le(ts.day as nat);
    crate::decimal::lemma_pad2_le(ts.hour as nat);
    crate::decimal::lemma_pad2_le(ts.minute as nat);
    crate::decimal::lemma_pad2_le(ts.second as nat);
    crate::decimal::lemma_dec_rep_u64_len(ts.year as nat);
    crate::decimal::lemma_dec_rep_u64_len(ts.month as nat);
    crate::decimal::lemma_dec_rep_u64_len(ts.day as nat);
    crate::decimal::lemma_dec_rep_u64_len(ts.hour as nat);
    crate::decimal::lemma_dec_rep_u64_len(ts.minute as nat);
    crate::decimal::lemma_dec_rep_u64_len(ts.second as nat);
}

/// The value text of any 64-bit value is far below the cell limit.
proof fn lemma_value_text_len(v: nat)
    requires
        v <= u64::MAX,
    ensures
        value_text(v).len() <= 23,
{
    crate::decimal::lemma_dec_rep_u64_len(v / 100);
    lemma_pad2_len(v % 100);
}

/// Build the in-memory workbook for a record list: one sheet holding
/// exactly the header row and one row of rendered cells per record.
pub fn export_workbook(data: &Vec<TableData>) -> (wb: Workbook)
    requires
        data@.len() + 1 <= MAX_SHEET_ROWS,
        forall|i: int| 0 <= i < data@.len() ==> (#[trigger] data@[i]).name@.len() <= MAX_CELL_CHARS,
    ensures
        wb_sheets(wb) == seq![sheet_cells(data@)],
{
    let mut ws = worksheet_new();
    proof {
        reveal_strlit("ID");
        reveal_strlit("Name");
        reveal_strlit("Value");
        reveal_strlit("Date");
    }
    worksheet_write_string(&mut ws, 0, 0, "ID");
    worksheet_write_string(&mut ws, 0, 1, "Name");
    worksheet_write_string(&mut ws, 0, 2, "Value");
    worksheet_write_string(&mut ws, 0, 3, "Date");
    proof {
        assert(ws_cells(ws) == header_cells());
        assert(ws_cells(ws) == sheet_cells_upto(data@, 0));
    }
    let mut i: usize = 0;
    while i < data.len()
        invariant
            i <= data@.len(),
            data@.len() + 1 <= MAX_SHEET_ROWS,
            forall|k: int|
                0 <= k < data@.len() ==> (#[trigger] data@[k]).name@.len() <= MAX_CELL_CHARS,
            ws_cells(ws) == sheet_cells_upto(data@, i as int),
        decreases data@.len() - i,
    {
        let row = &data[i];
        let r: u32 = (i as u32) + 1;
        let id_text = u64_to_string(row.id as u64);
        let val_text = render_value(row.value);
        let date_text = render_timestamp(&row.date);
        proof {
            crate::decimal::lemma_dec_rep_u64_len(row.id as nat);
            crate::decimal::lemma_dec_rep_nonempty(row.id as nat);
            lemma_value_text_len(row.value as nat);
            lemma_value_two_decimals(row.value as nat);
            lemma_timestamp_text_len(row.date);
        }
        worksheet_write_string(&mut ws, r, 0, id_text.as_str());
        worksheet_write_string(&mut ws, r, 1, row.name.as_str());
        worksheet_write_string(&mut ws, r, 2, val_text.as_str());
        worksheet_write_string(&mut ws, r, 3, date_text.as_str());
        proof {
            assert(ws_cells(ws) == row_cells(
                sheet_cells_upto(data@, i as int),
                data@[i as int],
                i + 1,
            ));
            assert(ws_cells(ws) == sheet_cells_upto(data@, i + 1));
        }
        i = i + 1;
    }
    let mut wb = workbook_new();
    workbook_push_worksheet(&mut wb, ws);
    proof {
        assert(wb_sheets(wb) =~= seq![sheet_cells(data@)]);
    }
    wb
}

/// A finished export: the workbook to save and the path to save it under.
pub struct ExportDoc {
    pub workbook: Workbook,
    pub path: String,
}

pub struct ExcelExporter;

impl ExcelExporter {
    pub fn new() -> (r: Self) {
        ExcelExporter
    }

    /// Lay the records out as a workbook and compute the target path.  The
    /// sheet holds exactly the header row and one row per record, in input
    /// order; the path is the download directory (or the current directory)
    /// plus a file name stamped with the current clock reading.  Fails
    /// exactly when the grid would break a hard format limit.
    pub fn export_data(&self, data: &Vec<TableData>) -> (r: Result<ExportDoc, ExportError>)
        ensures
            r is Ok <==> (data@.len() + 1 <= MAX_SHEET_ROWS && forall|i: int|
                0 <= i < data@.len() ==> (#[trigger] data@[i]).name@.len() <= MAX_CELL_CHARS),
            r matches Ok(doc) ==> wb_sheets(doc.workbook) == seq![sheet_cells(data@)],
            r matches Ok(doc) ==> (exists|d: Option<Seq<char>>, ts: Timestamp|
                ts.wf() && doc.path@ == path_text(d, ts)),
            data@.len() + 1 > MAX_SHEET_ROWS ==> (r matches Err(e) && e is TooManyRows),
            (data@.len() + 1 <= MAX_SHEET_ROWS && exists|i: int|
                0 <= i < data@.len() && (#[trigger] data@[i]).name@.len() > MAX_CELL_CHARS) ==> (
            r matches Err(e) && e is NameTooLong),
    {
        if data.len() >= MAX_SHEET_ROWS as usize {
            return Err(ExportError::TooManyRows);
        }
        let mut i: usize = 0;
        while i < data.len()
            invariant
                i <= data@.len(),
                data@.len() + 1 <= MAX_SHEET_ROWS,
                forall|k: int|
                    0 <= k < i ==> (#[trigger] data@[k]).name@.len() <= MAX_CELL_CHARS,
            decreases data@.len() - i,
        {
            if data[i].name.as_str().unicode_len() > MAX_CELL_CHARS {
                return Err(ExportError::NameTooLong);
            }
            i = i + 1;
        }
        let ts = Timestamp::now();
        let dir = download_dir_string();
        let path = export_path(&dir, &ts);
        let workbook = export_workbook(data);
        Ok(ExportDoc { workbook, path })
    }
}

/// Under a well-formed timestamp the date text is exactly nineteen
/// characters: `YYYY-MM-DD HH:MM:SS` with every field zero-padded.
pub proof fn lemma_timestamp_fixed_width(ts: Timestamp)
    requires
        ts.wf(),
    ensures
        timestamp_text(ts).len() == 19,
{
    crate::decimal::lemma_pad4_len(ts.year as nat);
    lemma_pad2_len(ts.month as nat);
    lemma_pad2_len(ts.day as nat);
    lemma_pad2_len(ts.hour as nat);
    lemma_pad2_len(ts.minute as nat);
    lemma_pad2_len(ts.second as nat);
}

/// Every cell of a sheet built from the first `n` records lies in sheet
/// rows `0..=n` and in the four fixed columns.
proof fn lemma_upto_dom(rows: Seq<TableData>, n: int)
    requires
        0 <= n <= rows.len(),
    ensures
        forall|rc: (int, int)|
            #[trigger] sheet_cells_upto(rows, n).dom().contains(rc) ==> 0 <= rc.0 <= n && 0 <= rc.1
                < 4,
    decreases n,
{
    if n == 0 {
        assert forall|rc: (int, int)|
            #[trigger] sheet_cells_upto(rows, 0).dom().contains(rc) implies 0 <= rc.0 <= 0 && 0
            <= rc.1 < 4 by {
            assert(sheet_cells_upto(rows, 0) == header_cells());
            assert(rc == (0int, 0int) || rc == (0int, 1int) || rc == (0int, 2int) || rc == (
            0int,
            3int,
            ));
        }
    } else {
        lemma_upto_dom(rows, n - 1);
        assert forall|rc: (int, int)|
            #[trigger] sheet_cells_upto(rows, n).dom().contains(rc) implies 0 <= rc.0 <= n && 0
            <= rc.1 < 4 by {
            if !sheet_cells_upto(rows, n - 1).dom().contains(rc) {
                assert(rc == (n, 0int) || rc == (n, 1int) || rc == (n, 2int) || rc == (n, 3int));
            }
        }
    }
}

/// In a sheet built from the first `n` records, record `i` fills sheet row
/// `i + 1` with its rendered cells, the name cell standing exactly when the
/// name is non-empty.
proof fn lemma_upto_at(rows: Seq<TableData>, n: int, i: int)
    requires
        0 <= i < n <= rows.len(),
    ensures
        sheet_cells_upto(rows, n).contains_pair((i + 1, 0), dec_rep(rows[i].id as nat)),
        rows[i].name@.len() > 0 ==> sheet_cells_upto(rows, n).contains_pair(
            (i + 1, 1),
            rows[i].name@,
        ),
        rows[i].name@.len() == 0 ==> !sheet_cells_upto(rows, n).dom().contains((i + 1, 1)),
        sheet_cells_upto(rows, n).contains_pair((i + 1, 2), value_text(rows[i].value as nat)),
        sheet_cells_upto(rows, n).contains_pair((i + 1, 3), timestamp_text(rows[i].date)),
    decreases n,
{
    crate::decimal::lemma_dec_rep_nonempty(rows[i].id as nat);
    lemma_value_two_decimals(rows[i].value as nat);
    if i == n - 1 {
        lemma_upto_dom(rows, n - 1);
        if rows[i].name@.len() == 0 {
            assert(!sheet_cells_upto(rows, n - 1).dom().contains((i + 1, 1)));
            assert(!sheet_cells_upto(rows, n).dom().contains((i + 1, 1)));
        }
    } else {
        lemma_upto_at(rows, n - 1, i);
        if rows[i].name@.len() == 0 {
            assert(i + 1 != n);
            assert(!sheet_cells_upto(rows, n).dom().contains((i + 1, 1)));
        }
    }
}

/// The full sheet layout: a record list of length N yields cells in sheet
/// rows `0..=N` only (the header plus exactly one sheet row per record, in
/// input order), with record `i`'s identifier, value and date rendered in
/// row `i + 1`, and the value text carrying exactly two decimal places.
pub proof fn lemma_sheet_layout(rows: Seq<TableData>)
    ensures
        forall|rc: (int, int)|
            #[trigger] sheet_cells(rows).dom().contains(rc) ==> 0 <= rc.0 <= rows.len() && 0
                <= rc.1 < 4,
        sheet_cells(rows).contains_pair((0, 0), "ID"@),
        sheet_cells(rows).contains_pair((0, 1), "Name"@),
        sheet_cells(rows).contains_pair((0, 2), "Value"@),
        sheet_cells(rows).contains_pair((0, 3), "Date"@),
        forall|i: int|
            0 <= i < rows.len() ==> sheet_cells(rows).contains_pair(
                (i + 1, 0),
                dec_rep((#[trigger] rows[i]).id as nat),
            ),
        forall|i: int|
            0 <= i < rows.len() && (#[trigger] rows[i]).name@.len() > 0 ==> sheet_cells(
                rows,
            ).contains_pair((i + 1, 1), rows[i].name@),
        forall|i: int|
            0 <= i < rows.len() ==> sheet_cells(rows).contains_pair(
                (i + 1, 2),
                value_text((#[trigger] rows[i]).value as nat),
            ),
        forall|i: int|
            0 <= i < rows.len() ==> sheet_cells(rows).contains_pair(
                (i + 1, 3),
                timestamp_text((#[trigger] rows[i]).date),
            ),
{
    let n = rows.len() as int;
    lemma_upto_dom(rows, n);
    lemma_header_in_sheet(rows, n);
    assert forall|i: int| 0 <= i < rows.len() implies {
        &&& sheet_cells(rows).contains_pair((i + 1, 0), dec_rep((rows[i]).id as nat))
        &&& ((rows[i]).name@.len() > 0 ==> sheet_cells(rows).contains_pair(
            (i + 1, 1),
            rows[i].name@,
        ))
        &&& sheet_cells(rows).contains_pair((i + 1, 2), value_text((rows[i]).value as nat))
        &&& sheet_cells(rows).contains_pair((i + 1, 3), timestamp_text((rows[i]).date))
    } by {
        lemma_upto_at(rows, n, i);
    }
}

/// The header cells survive every record row: they sit in sheet row zero,
/// which no record touches.
proof fn lemma_header_in_sheet(rows: Seq<TableData>, n: int)
    requires
        0 <= n <= rows.len(),
    ensures
        sheet_cells_upto(rows, n).contains_pair((0, 0), "ID"@),
        sheet_cells_upto(rows, n).contains_pair((0, 1), "Name"@),
        sheet_cells_upto(rows, n).contains_pair((0, 2), "Value"@),
        sheet_cells_upto(rows, n).contains_pair((0, 3), "Date"@),
    decreases n,
{
    if n > 0 {
        lemma_header_in_sheet(rows, n - 1);
    }
}

/// Exporting an empty record list produces only the header row: the four
/// fixed titles in row zero, and nothing else.
pub proof fn lemma_empty_export_is_header()
    ensures
        sheet_cells(Seq::<TableData>::empty()) == header_cells(),
        header_cells().dom() =~= set![(0int, 0int), (0int, 1int), (0int, 2int), (0int, 3int)],
{
}

} // verus!
