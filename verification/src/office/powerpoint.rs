use vstd::prelude::*;
use vstd::string::*;
use crate::office::runner::{ps_escape, ps_escaped};
use crate::text::{owned, signed_decimal, push_signed_decimal};

verus! {

/// Connects to a running PowerPoint or starts one.
pub const PP_HEADER: &'static str = "\n$pp = $null\ntry { $pp = [Runtime.InteropServices.Marshal]::GetActiveObject('PowerPoint.Application') } catch {}\nif ($null -eq $pp) { $pp = New-Object -ComObject PowerPoint.Application }\n$pp.Visible = $true\n";

pub const OPEN_A: &'static str = "\n$target = '";

pub const OPEN_B: &'static str = "'\n$pres = $null\nforeach ($q in $pp.Presentations) { if ($q.FullName -eq $target) { $pres = $q; break } }\nif ($null -eq $pres) {\n    if (Test-Path $target) { $pres = $pp.Presentations.Open($target) }\n    else { $pres = $pp.Presentations.Add(); $pres.SaveAs($target) }\n}\n";

pub const SLIDE_A: &'static str = "\n# ppLayoutText = 2\n$index = $pres.Slides.Count + 1\n$slide = $pres.Slides.Add($index, 2)\nif ('";

pub const SLIDE_B: &'static str = "' -ne '') { $slide.Shapes.Title.TextFrame.TextRange.Text = '";

pub const SLIDE_C: &'static str = "' }\nif ('";

pub const SLIDE_D: &'static str = "' -ne '' -and $slide.Shapes.Count -ge 2) { $slide.Shapes.Item(2).TextFrame.TextRange.Text = '";

pub const SLIDE_E: &'static str = "' }\n$pres.Save()\n";

pub const EDIT_A: &'static str = "\n$slide = $pres.Slides.Item(";

pub const EDIT_B: &'static str = ")\n$shape = $slide.Shapes.Item(";

pub const EDIT_C: &'static str = ")\n$shape.TextFrame.TextRange.Text = '";

pub const EDIT_D: &'static str = "'\n$pres.Save()\n";

/// Tells whether PowerPoint can be started.
pub const PP_PROBE: &'static str = "\ntry {\n    $app = New-Object -ComObject PowerPoint.Application\n    $app.Quit()\n    Write-Output \"ok\"\n} catch { exit 1 }\n";

/// Selects the presentation at `path`: one already open, else opened, else created.
pub open spec fn spec_open_script(path: Seq<char>) -> Seq<char> {
    PP_HEADER@ + OPEN_A@ + ps_escaped(path) + OPEN_B@
}

pub open spec fn or_empty(s: Option<Seq<char>>) -> Seq<char> {
    match s {
        Some(t) => t,
        None => Seq::empty(),
    }
}

pub open spec fn spec_add_slide_script(
    path: Seq<char>,
    title: Option<Seq<char>>,
    body: Option<Seq<char>>,
) -> Seq<char> {
    let t = ps_escaped(or_empty(title));
    let b = ps_escaped(or_empty(body));
    spec_open_script(path) + SLIDE_A@ + t + SLIDE_B@ + t + SLIDE_C@ + b + SLIDE_D@ + b + SLIDE_E@
}

pub open spec fn spec_edit_text_script(
    path: Seq<char>,
    slide_index: i32,
    shape_index: i32,
    text: Seq<char>,
) -> Seq<char> {
    spec_open_script(path) + EDIT_A@ + signed_decimal(slide_index as int) + EDIT_B@
        + signed_decimal(shape_index as int) + EDIT_C@ + ps_escaped(text) + EDIT_D@
}

fn push_open(out: &mut String, path: &str)
    ensures
        final(out)@ == old(out)@ + spec_open_script(path@),
{
    out.append(PP_HEADER);
    out.append(OPEN_A);
    let p = ps_escape(path);
    out.append(p.as_str());
    out.append(OPEN_B);
}

fn opt_str_view(s: Option<&str>) -> (res: &str)
    ensures
        res@ == or_empty(
            match s {
                Some(t) => Some(t@),
                None => None,
            },
        ),
{
    proof {
        reveal_strlit("");
    }
    match s {
        Some(t) => t,
        None => "",
    }
}

/// The script that adds a slide with a title and body text, and saves.
pub fn add_slide_script(path: &str, title: Option<&str>, body: Option<&str>) -> (res: String)
    ensures
        res@ == spec_add_slide_script(
            path@,
            match title {
                Some(t) => Some(t@),
                None => None,
            },
            match body {
                Some(b) => Some(b@),
                None => None,
            },
        ),
{
    let t = ps_escape(opt_str_view(title));
    let b = ps_escape(opt_str_view(body));
    let mut s = String::new();
    push_open(&mut s, path);
    s.append(SLIDE_A);
    s.append(t.as_str());
    s.append(SLIDE_B);
    s.append(t.as_str());
    s.append(SLIDE_C);
    s.append(b.as_str());
    s.append(SLIDE_D);
    s.append(b.as_str());
    s.append(SLIDE_E);
    s
}

/// The script that replaces the text of one shape on one slide, and saves.
pub fn edit_text_script(path: &str, slide_index: i32, shape_index: i32, text: &str) -> (res: String)
    ensures
        res@ == spec_edit_text_script(path@, slide_index, shape_index, text@),
{
    let mut s = String::new();
    push_open(&mut s, path);
    s.append(EDIT_A);
    push_signed_decimal(&mut s, slide_index as i64);
    s.append(EDIT_B);
    push_signed_decimal(&mut s, shape_index as i64);
    s.append(EDIT_C);
    let t = ps_escape(text);
    s.append(t.as_str());
    s.append(EDIT_D);
    s
}

/// The script that tells whether PowerPoint is installed.
pub fn probe_script() -> (res: String)
    ensures
        res@ == PP_PROBE@,
{
    owned(PP_PROBE)
}

pub fn add_slide_message() -> (res: String)
    ensures
        res@ == "スライドを追加しました"@,
{
    owned("スライドを追加しました")
}

pub open spec fn spec_edit_text_message(slide_index: i32, shape_index: i32) -> Seq<char> {
    "Slide#"@ + signed_decimal(slide_index as int) + " Shape#"@ + signed_decimal(
        shape_index as int,
    ) + " のテキストを更新"@
}

pub fn edit_text_message(slide_index: i32, shape_index: i32) -> (res: String)
    ensures
        res@ == spec_edit_text_message(slide_index, shape_index),
{
    let mut s = owned("Slide#");
    push_signed_decimal(&mut s, slide_index as i64);
    s.append(" Shape#");
    push_signed_decimal(&mut s, shape_index as i64);
    s.append(" のテキストを更新");
    s
}

} // verus!
