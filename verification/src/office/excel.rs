use vstd::prelude::*;
use vstd::string::*;
use crate::json::{JsonValue, JsonView, jview, parse_json, parsed_json};
use crate::office::runner::{ps_escape, ps_escaped};
use crate::office::types::table_view;
use crate::text::{owned, decimal, push_decimal, trim, trim_string, views};

verus! {

/// Connects to a running Excel or starts one.
pub const EXCEL_HEADER: &'static str = "\n$xl = $null\ntry { $xl = [Runtime.InteropServices.Marshal]::GetActiveObject('Excel.Application') } catch {}\nif ($null -eq $xl) { $xl = New-Object -ComObject Excel.Application }\n$xl.Visible = $true\n$xl.DisplayAlerts = $false\n";

pub const OPEN_A: &'static str = "\n$target = '";

pub const OPEN_B: &'static str = "'\n$wb = $null\nforeach ($b in $xl.Workbooks) { if ($b.FullName -eq $target) { $wb = $b; break } }\nif ($null -eq $wb) {\n    if (Test-Path $target) { $wb = $xl.Workbooks.Open($target) }\n    else { $wb = $xl.Workbooks.Add(); $wb.SaveAs($target) }\n}\n";

pub const SHEET_A: &'static str = "$sh = $wb.Worksheets.Item('";

pub const SHEET_B: &'static str = "')\n";

pub const READ_A: &'static str = "\n$rng = $sh.Range('";

pub const READ_B: &'static str = "')\n$data = @()\nif ($rng.Cells.Count -eq 1) {\n    $data = @(@($rng.Value2))\n} else {\n    foreach ($row in $rng.Rows) {\n        $line = @()\n        foreach ($c in $row.Cells) { $line += ,$c.Value2 }\n        $data += ,$line\n    }\n}\n$data | ConvertTo-Json -Compress -Depth 4\n";

pub const CELL_A: &'static str = "\n$sh.Range('";

pub const CELL_B: &'static str = "').Value2 = '";

pub const CELL_C: &'static str = "'\n$wb.Save()\n";

pub const RANGE_A: &'static str = "\n$arr = New-Object 'object[,]' ";

pub const RANGE_B: &'static str = "\n$sh.Range('";

pub const RANGE_C: &'static str = "').Value2 = $arr\n$wb.Save()\n";

pub const FORMULA_A: &'static str = "\n$sh.Range('";

pub const FORMULA_B: &'static str = "').Formula = '";

pub const FORMULA_C: &'static str = "'\n$wb.Save()\n";

/// Tells whether Excel can be started.
pub const EXCEL_PROBE: &'static str = "\ntry {\n    $app = New-Object -ComObject Excel.Application\n    $app.Quit()\n    Write-Output \"ok\"\n} catch { exit 1 }\n";

/// Selects the workbook at `path`: one already open, else opened, else created.
pub open spec fn spec_open_script(path: Seq<char>) -> Seq<char> {
    EXCEL_HEADER@ + OPEN_A@ + ps_escaped(path) + OPEN_B@
}

/// Selects worksheet `sheet` of the workbook.
pub open spec fn select_sheet(sheet: Seq<char>) -> Seq<char> {
    SHEET_A@ + ps_escaped(sheet) + SHEET_B@
}

pub open spec fn sheet_script(path: Seq<char>, sheet: Seq<char>) -> Seq<char> {
    spec_open_script(path) + select_sheet(sheet)
}

pub open spec fn spec_read_range_script(path: Seq<char>, sheet: Seq<char>, range: Seq<char>) -> Seq<
    char,
> {
    sheet_script(path, sheet) + READ_A@ + ps_escaped(range) + READ_B@
}

pub open spec fn spec_write_cell_script(
    path: Seq<char>,
    sheet: Seq<char>,
    cell: Seq<char>,
    value: Seq<char>,
) -> Seq<char> {
    sheet_script(path, sheet) + CELL_A@ + ps_escaped(cell) + CELL_B@ + ps_escaped(value) + CELL_C@
}

pub open spec fn spec_add_formula_script(
    path: Seq<char>,
    sheet: Seq<char>,
    cell: Seq<char>,
    formula: Seq<char>,
) -> Seq<char> {
    sheet_script(path, sheet) + FORMULA_A@ + ps_escaped(cell) + FORMULA_B@ + ps_escaped(formula)
        + FORMULA_C@
}

/// The line that puts `v` into cell `(i, j)` of the array.
pub open spec fn cell_line(i: nat, j: nat, v: Seq<char>) -> Seq<char> {
    "$arr["@ + decimal(i) + ","@ + decimal(j) + "] = '"@ + ps_escaped(v) + "'\n"@
}

/// The lines for the first `n` cells of row `i`.
pub open spec fn row_lines(i: nat, row: Seq<Seq<char>>, n: nat) -> Seq<char>
    decreases n,
{
    if n == 0 {
        Seq::empty()
    } else {
        row_lines(i, row, (n - 1) as nat) + cell_line(i, (n - 1) as nat, row[n - 1])
    }
}

/// The lines for the cells of the first `n` rows.
pub open spec fn table_lines(t: Seq<Seq<Seq<char>>>, n: nat) -> Seq<char>
    decreases n,
{
    if n == 0 {
        Seq::empty()
    } else {
        table_lines(t, (n - 1) as nat) + row_lines((n - 1) as nat, t[n - 1], t[n - 1].len())
    }
}

/// The length of the longest of the first `n` rows.
pub open spec fn widest(t: Seq<Seq<Seq<char>>>, n: nat) -> nat
    decreases n,
{
    if n == 0 {
        0
    } else if widest(t, (n - 1) as nat) < t[n - 1].len() {
        t[n - 1].len()
    } else {
        widest(t, (n - 1) as nat)
    }
}

pub open spec fn spec_write_range_script(
    path: Seq<char>,
    sheet: Seq<char>,
    range: Seq<char>,
    values: Seq<Seq<Seq<char>>>,
) -> Seq<char> {
    sheet_script(path, sheet) + RANGE_A@ + decimal(values.len()) + ","@ + decimal(
        widest(values, values.len()),
    ) + "\n"@ + table_lines(values, values.len()) + RANGE_B@ + ps_escaped(range) + RANGE_C@
}

/// No row among the first `n` is longer than `widest(t, n)`, and where there
/// are rows, one of them is that long.
proof fn lemma_widest(t: Seq<Seq<Seq<char>>>, n: nat)
    requires
        n <= t.len(),
    ensures
        forall|i: int| 0 <= i < n ==> #[trigger] t[i].len() <= widest(t, n),
        n == 0 ==> widest(t, n) == 0,
        n > 0 ==> exists|i: int| 0 <= i < n && #[trigger] t[i].len() == widest(t, n),
    decreases n,
{
    if n > 0 {
        lemma_widest(t, (n - 1) as nat);
        if widest(t, (n - 1) as nat) >= t[n - 1].len() && n > 1 {
            let k = choose|i: int| 0 <= i < n - 1 && #[trigger] t[i].len() == widest(t, (n - 1) as nat);
            assert(t[k].len() == widest(t, n));
        }
    }
}

/// The array that the write-range script fills is declared with as many
/// rows as the table has, and as many columns as its longest row: every cell
/// the script sets, `(i, j)` for row `i` and column `j`, lies inside it.
pub proof fn lemma_write_range_dimensions(
    path: Seq<char>,
    sheet: Seq<char>,
    range: Seq<char>,
    values: Seq<Seq<Seq<char>>>,
)
    ensures
        exists|cols: nat|
            {
                &&& forall|i: int| 0 <= i < values.len() ==> #[trigger] values[i].len() <= cols
                &&& (values.len() == 0 ==> cols == 0)
                &&& (values.len() > 0 ==> exists|i: int|
                    0 <= i < values.len() && #[trigger] values[i].len() == cols)
                &&& spec_write_range_script(path, sheet, range, values) == sheet_script(path, sheet)
                    + RANGE_A@ + decimal(values.len()) + ","@ + decimal(cols) + "\n"@
                    + table_lines(values, values.len()) + RANGE_B@ + ps_escaped(range) + RANGE_C@
            },
{
    let cols = widest(values, values.len());
    lemma_widest(values, values.len());
    assert(forall|i: int| 0 <= i < values.len() ==> #[trigger] values[i].len() <= cols);
    assert(values.len() > 0 ==> exists|i: int|
        0 <= i < values.len() && #[trigger] values[i].len() == cols);
    assert(spec_write_range_script(path, sheet, range, values) == sheet_script(path, sheet)
        + RANGE_A@ + decimal(values.len()) + ","@ + decimal(cols) + "\n"@
        + table_lines(values, values.len()) + RANGE_B@ + ps_escaped(range) + RANGE_C@);
}

fn push_sheet(out: &mut String, path: &str, sheet: &str)
    ensures
        final(out)@ == old(out)@ + sheet_script(path@, sheet@),
{
    out.append(EXCEL_HEADER);
    out.append(OPEN_A);
    let p = ps_escape(path);
    out.append(p.as_str());
    out.append(OPEN_B);
    out.append(SHEET_A);
    let s = ps_escape(sheet);
    out.append(s.as_str());
    out.append(SHEET_B);
}

/// The script that opens (or creates) a workbook.
pub fn open_script(path: &str) -> (res: String)
    ensures
        res@ == spec_open_script(path@),
{
    let mut out = owned(EXCEL_HEADER);
    out.append(OPEN_A);
    let p = ps_escape(path);
    out.append(p.as_str());
    out.append(OPEN_B);
    out
}

/// The script that reads a range and prints it as JSON.
pub fn read_range_script(path: &str, sheet: &str, range: &str) -> (res: String)
    ensures
        res@ == spec_read_range_script(path@, sheet@, range@),
{
    let mut out = String::new();
    push_sheet(&mut out, path, sheet);
    out.append(READ_A);
    let r = ps_escape(range);
    out.append(r.as_str());
    out.append(READ_B);
    out
}

/// The script that writes one cell, and saves.
pub fn write_cell_script(path: &str, sheet: &str, cell: &str, value: &str) -> (res: String)
    ensures
        res@ == spec_write_cell_script(path@, sheet@, cell@, value@),
{
    let mut out = String::new();
    push_sheet(&mut out, path, sheet);
    out.append(CELL_A);
    let c = ps_escape(cell);
    out.append(c.as_str());
    out.append(CELL_B);
    let v = ps_escape(value);
    out.append(v.as_str());
    out.append(CELL_C);
    out
}

/// The script that sets a formula, and saves.
pub fn add_formula_script(path: &str, sheet: &str, cell: &str, formula: &str) -> (res: String)
    ensures
        res@ == spec_add_formula_script(path@, sheet@, cell@, formula@),
{
    let mut out = String::new();
    push_sheet(&mut out, path, sheet);
    out.append(FORMULA_A);
    let c = ps_escape(cell);
    out.append(c.as_str());
    out.append(FORMULA_B);
    let f = ps_escape(formula);
    out.append(f.as_str());
    out.append(FORMULA_C);
    out
}

/// The number of columns: the length of the longest row.
pub fn widest_row(values: &Vec<Vec<String>>) -> (res: usize)
    ensures
        res == widest(table_view(values@), values.len() as nat),
{
    let ghost t = table_view(values@);
    let mut w: usize = 0;
    let mut i: usize = 0;
    while i < values.len()
        invariant
            i <= values.len(),
            t == table_view(values@),
            w == widest(t, i as nat),
        decreases values.len() - i,
    {
        assert(t[i as int].len() == values@[i as int].len());
        if w < values[i].len() {
            w = values[i].len();
        }
        i = i + 1;
    }
    w
}

/// The script that writes a table of values into a range, and saves; the
/// table must have at least one row and one column.
pub fn write_range_script(path: &str, sheet: &str, range: &str, values: &Vec<Vec<String>>) -> (res:
    String)
    ensures
        res@ == spec_write_range_script(path@, sheet@, range@, table_view(values@)),
{
    let ghost t = table_view(values@);
    let rows = values.len();
    let cols = widest_row(values);
    let mut out = String::new();
    push_sheet(&mut out, path, sheet);
    out.append(RANGE_A);
    push_decimal(&mut out, rows as u64);
    out.append(",");
    push_decimal(&mut out, cols as u64);
    out.append("\n");
    let ghost prefix = out@;
    let mut i: usize = 0;
    while i < values.len()
        invariant
            i <= values.len(),
            t == table_view(values@),
            out@ == prefix + table_lines(t, i as nat),
        decreases values.len() - i,
    {
        let row = &values[i];
        assert(views(row@) == t[i as int]);
        let ghost before = out@;
        let mut j: usize = 0;
        while j < row.len()
            invariant
                j <= row.len(),
                views(row@) == t[i as int],
                out@ == before + row_lines(i as nat, t[i as int], j as nat),
            decreases row.len() - j,
        {
            out.append("$arr[");
            push_decimal(&mut out, i as u64);
            out.append(",");
            push_decimal(&mut out, j as u64);
            out.append("] = '");
            let e = ps_escape(row[j].as_str());
            out.append(e.as_str());
            out.append("'\n");
            assert(t[i as int][j as int] == row@[j as int]@);
            j = j + 1;
        }
        i = i + 1;
    }
    out.append(RANGE_B);
    let r = ps_escape(range);
    out.append(r.as_str());
    out.append(RANGE_C);
    out
}

/// The script that tells whether Excel is installed.
pub fn probe_script() -> (res: String)
    ensures
        res@ == EXCEL_PROBE@,
{
    owned(EXCEL_PROBE)
}

// ---------------------------------------------------------------------------
// Messages and data on success
// ---------------------------------------------------------------------------

pub open spec fn spec_open_message(path: Seq<char>) -> Seq<char> {
    "Excelブックを開きました: "@ + path
}

pub fn open_message(path: &str) -> (res: String)
    ensures
        res@ == spec_open_message(path@),
{
    let mut s = owned("Excelブックを開きました: ");
    s.append(path);
    s
}

/// `"{sheet}!{place}"` followed by `tail`.
pub open spec fn at_message(sheet: Seq<char>, place: Seq<char>, tail: Seq<char>) -> Seq<char> {
    sheet + "!"@ + place + tail
}

pub fn at_message_exec(sheet: &str, place: &str, tail: &str) -> (res: String)
    ensures
        res@ == at_message(sheet@, place@, tail@),
{
    let mut s = owned(sheet);
    s.append("!");
    s.append(place);
    s.append(tail);
    s
}

/// What a read reports as data: the printed JSON, trimmed, where it parses,
/// else the trimmed text itself.
pub open spec fn read_data(out: Seq<char>) -> JsonView {
    match parsed_json(trim(out)) {
        Some(v) => jview(v),
        None => JsonView::Str(trim(out)),
    }
}

pub fn read_data_exec(out: &str) -> (res: JsonValue)
    ensures
        jview(res) == read_data(out@),
{
    let t = trim_string(out);
    match parse_json(t.as_str()) {
        Some(v) => v,
        None => JsonValue::Str(t),
    }
}

pub open spec fn spec_write_range_message(sheet: Seq<char>, range: Seq<char>, rows: nat, cols: nat) -> Seq<
    char,
> {
    sheet + "!"@ + range + " に "@ + decimal(rows) + "×"@ + decimal(cols) + " 書き込み完了"@
}

pub fn write_range_message(sheet: &str, range: &str, rows: usize, cols: usize) -> (res: String)
    ensures
        res@ == spec_write_range_message(sheet@, range@, rows as nat, cols as nat),
{
    let mut s = owned(sheet);
    s.append("!");
    s.append(range);
    s.append(" に ");
    push_decimal(&mut s, rows as u64);
    s.append("×");
    push_decimal(&mut s, cols as u64);
    s.append(" 書き込み完了");
    s
}

} // verus!
