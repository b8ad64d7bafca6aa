use vstd::prelude::*;
use vstd::string::*;
use crate::office::runner::{ps_escape, ps_escaped};
use crate::text::{owned, decimal, push_decimal};

verus! {

/// Connects to a running Word or starts one.
pub const WORD_HEADER: &'static str = "\n$wd = $null\ntry { $wd = [Runtime.InteropServices.Marshal]::GetActiveObject('Word.Application') } catch {}\nif ($null -eq $wd) { $wd = New-Object -ComObject Word.Application }\n$wd.Visible = $true\n";

pub const OPEN_A: &'static str = "\n$target = '";

pub const OPEN_B: &'static str = "'\n$doc = $null\nforeach ($d in $wd.Documents) { if ($d.FullName -eq $target) { $doc = $d; break } }\nif ($null -eq $doc) {\n    if (Test-Path $target) { $doc = $wd.Documents.Open($target) }\n    else { $doc = $wd.Documents.Add(); $doc.SaveAs2($target) }\n}\n";

pub const FIND_A: &'static str = "\n$find = $doc.Content.Find\n$find.ClearFormatting()\n$find.Replacement.ClearFormatting()\n$find.Text = '";

pub const FIND_B: &'static str = "'\n$find.Replacement.Text = '";

pub const FIND_C: &'static str = "'\n$find.MatchCase = $";

pub const FIND_D: &'static str = "\n# wdReplaceAll = 2\n[void]$find.Execute($null,$null,$null,$null,$null,$null,$null,$null,$null,$null,2)\n$doc.Save()\nWrite-Output \"replaced\"\n";

pub const APPEND_A: &'static str = "\n$rng = $doc.Content\n$rng.Collapse(0)  # wdCollapseEnd\n$rng.InsertParagraphAfter()\n$rng.Collapse(0)\n$rng.Text = '";

pub const APPEND_B: &'static str = "'\n";

pub const APPEND_C: &'static str = "\n$doc.Save()\n";

pub const STYLE_A: &'static str = "$rng.Style = $wd.ActiveDocument.Styles.Item('";

pub const STYLE_B: &'static str = "')";

pub const HEADING_A: &'static str = "\n$rng = $doc.Content\n$rng.Collapse(0)\n$rng.InsertParagraphAfter()\n$rng.Collapse(0)\n$rng.Text = '";

pub const HEADING_B: &'static str = "'\n$rng.Style = $wd.ActiveDocument.Styles.Item('Heading ";

pub const HEADING_C: &'static str = "')\n$doc.Save()\n";

pub const SAVE_A: &'static str = "\n$doc.SaveAs2('";

pub const SAVE_B: &'static str = "')\n";

/// Tells whether Word can be started.
pub const WORD_PROBE: &'static str = "\ntry {\n    $app = New-Object -ComObject Word.Application\n    $app.Quit()\n    Write-Output \"ok\"\n} catch { exit 1 }\n";

/// Selects the document at `path`: one already open, else opened, else created.
pub open spec fn open_or_create(path: Seq<char>) -> Seq<char> {
    OPEN_A@ + ps_escaped(path) + OPEN_B@
}

pub open spec fn spec_open_script(path: Seq<char>) -> Seq<char> {
    WORD_HEADER@ + open_or_create(path)
}

pub open spec fn bool_text(b: bool) -> Seq<char> {
    if b {
        "true"@
    } else {
        "false"@
    }
}

pub open spec fn spec_find_replace_script(
    path: Seq<char>,
    find: Seq<char>,
    replace: Seq<char>,
    match_case: bool,
) -> Seq<char> {
    spec_open_script(path) + FIND_A@ + ps_escaped(find) + FIND_B@ + ps_escaped(replace) + FIND_C@
        + bool_text(match_case) + FIND_D@
}

pub open spec fn style_line(style: Option<Seq<char>>) -> Seq<char> {
    match style {
        Some(s) => STYLE_A@ + ps_escaped(s) + STYLE_B@,
        None => Seq::empty(),
    }
}

pub open spec fn spec_append_paragraph_script(
    path: Seq<char>,
    text: Seq<char>,
    style: Option<Seq<char>>,
) -> Seq<char> {
    spec_open_script(path) + APPEND_A@ + ps_escaped(text) + APPEND_B@ + style_line(style)
        + APPEND_C@
}

/// A heading level held to the range 1 to 9.
pub open spec fn clamp_level(level: u8) -> u8 {
    if level < 1 {
        1
    } else if level > 9 {
        9
    } else {
        level
    }
}

pub open spec fn spec_insert_heading_script(path: Seq<char>, text: Seq<char>, level: u8) -> Seq<
    char,
> {
    spec_open_script(path) + HEADING_A@ + ps_escaped(text) + HEADING_B@ + decimal(
        clamp_level(level) as nat,
    ) + HEADING_C@
}

pub open spec fn spec_save_as_script(path: Seq<char>, dest: Seq<char>) -> Seq<char> {
    spec_open_script(path) + SAVE_A@ + ps_escaped(dest) + SAVE_B@
}

fn push_open(out: &mut String, path: &str)
    ensures
        final(out)@ == old(out)@ + spec_open_script(path@),
{
    out.append(WORD_HEADER);
    out.append(OPEN_A);
    let p = ps_escape(path);
    out.append(p.as_str());
    out.append(OPEN_B);
}

/// The script that opens (or creates) a document.
pub fn open_script(path: &str) -> (res: String)
    ensures
        res@ == spec_open_script(path@),
{
    let mut s = String::new();
    push_open(&mut s, path);
    s
}

/// The script that replaces every occurrence of `find` by `replace`, and saves.
pub fn find_replace_script(path: &str, find: &str, replace: &str, match_case: bool) -> (res: String)
    ensures
        res@ == spec_find_replace_script(path@, find@, replace@, match_case),
{
    let mut s = String::new();
    push_open(&mut s, path);
    s.append(FIND_A);
    let f = ps_escape(find);
    s.append(f.as_str());
    s.append(FIND_B);
    let r = ps_escape(replace);
    s.append(r.as_str());
    s.append(FIND_C);
    if match_case {
        s.append("true");
    } else {
        s.append("false");
    }
    s.append(FIND_D);
    s
}

/// The script that appends a paragraph, in `style` where one is given, and saves.
pub fn append_paragraph_script(path: &str, text: &str, style: Option<&str>) -> (res: String)
    ensures
        res@ == spec_append_paragraph_script(
            path@,
            text@,
            match style {
                Some(s) => Some(s@),
                None => None,
            },
        ),
{
    let mut s = String::new();
    push_open(&mut s, path);
    s.append(APPEND_A);
    let t = ps_escape(text);
    s.append(t.as_str());
    s.append(APPEND_B);
    match style {
        Some(st) => {
            s.append(STYLE_A);
            let e = ps_escape(st);
            s.append(e.as_str());
            s.append(STYLE_B);
        },
        None => {},
    }
    s.append(APPEND_C);
    s
}

pub fn clamp_level_exec(level: u8) -> (res: u8)
    ensures
        res == clamp_level(level),
{
    if level < 1 {
        1
    } else if level > 9 {
        9
    } else {
        level
    }
}

/// The script that appends a heading of the given level (held to 1..9), and saves.
pub fn insert_heading_script(path: &str, text: &str, level: u8) -> (res: String)
    ensures
        res@ == spec_insert_heading_script(path@, text@, level),
{
    let level = clamp_level_exec(level);
    let mut s = String::new();
    push_open(&mut s, path);
    s.append(HEADING_A);
    let t = ps_escape(text);
    s.append(t.as_str());
    s.append(HEADING_B);
    push_decimal(&mut s, level as u64);
    s.append(HEADING_C);
    s
}

/// The script that saves the document under another name.
pub fn save_as_script(path: &str, dest: &str) -> (res: String)
    ensures
        res@ == spec_save_as_script(path@, dest@),
{
    let mut s = String::new();
    push_open(&mut s, path);
    s.append(SAVE_A);
    let d = ps_escape(dest);
    s.append(d.as_str());
    s.append(SAVE_B);
    s
}

/// The script that tells whether Word is installed.
pub fn probe_script() -> (res: String)
    ensures
        res@ == WORD_PROBE@,
{
    owned(WORD_PROBE)
}

// ---------------------------------------------------------------------------
// Messages on success
// ---------------------------------------------------------------------------

pub open spec fn spec_open_message(path: Seq<char>) -> Seq<char> {
    "Word文書を開きました: "@ + path
}

pub fn open_message(path: &str) -> (res: String)
    ensures
        res@ == spec_open_message(path@),
{
    let mut s = owned("Word文書を開きました: ");
    s.append(path);
    s
}

pub open spec fn spec_find_replace_message(find: Seq<char>, replace: Seq<char>) -> Seq<char> {
    "置換完了: '"@ + find + "' → '"@ + replace + "'"@
}

pub fn find_replace_message(find: &str, replace: &str) -> (res: String)
    ensures
        res@ == spec_find_replace_message(find@, replace@),
{
    let mut s = owned("置換完了: '");
    s.append(find);
    s.append("' → '");
    s.append(replace);
    s.append("'");
    s
}

pub fn append_paragraph_message() -> (res: String)
    ensures
        res@ == "段落を追加しました"@,
{
    owned("段落を追加しました")
}

pub open spec fn spec_insert_heading_message(level: u8) -> Seq<char> {
    "見出し(Heading "@ + decimal(clamp_level(level) as nat) + ")を挿入しました"@
}

pub fn insert_heading_message(level: u8) -> (res: String)
    ensures
        res@ == spec_insert_heading_message(level),
{
    let mut s = owned("見出し(Heading ");
    push_decimal(&mut s, clamp_level_exec(level) as u64);
    s.append(")を挿入しました");
    s
}

pub open spec fn spec_save_as_message(dest: Seq<char>) -> Seq<char> {
    "保存しました: "@ + dest
}

pub fn save_as_message(dest: &str) -> (res: String)
    ensures
        res@ == spec_save_as_message(dest@),
{
    let mut s = owned("保存しました: ");
    s.append(dest);
    s
}

} // verus!
