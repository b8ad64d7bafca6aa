use vstd::prelude::*;
use vstd::string::*;
use crate::office::excel;
use crate::office::powerpoint;
use crate::office::sandbox::{ResolvedPath, allowed, check_allowed, refusal, roots_view};
use crate::office::types::{ActionView, EditAction, EditResult, ResultView};
use crate::office::undo::{is_backup_of, no_backup, pick_latest_backup};
use crate::office::word;
use crate::text::{owned, views};

verus! {

/// Which Office applications are installed.
#[derive(Debug, Clone, Copy)]
pub struct OfficeAvailability {
    pub word: bool,
    pub excel: bool,
    pub powerpoint: bool,
}

impl Default for OfficeAvailability {
    fn default() -> (res: Self)
        ensures
            !res.word && !res.excel && !res.powerpoint,
    {
        OfficeAvailability { word: false, excel: false, powerpoint: false }
    }
}

/// Edits Office documents within a whitelist, keeping backups in a history
/// folder.
#[derive(Debug, Clone)]
pub struct OfficeEditor {
    pub whitelist: Vec<String>,
    pub history_root: String,
    pub available: OfficeAvailability,
}

/// The script that performs `a` on the document at `p`; `None` for writing
/// an empty table, which is refused before anything runs.
pub open spec fn action_script(a: ActionView, p: Seq<char>) -> Option<Seq<char>> {
    match a {
        ActionView::WordOpen { .. } => Some(word::spec_open_script(p)),
        ActionView::WordFindReplace { find, replace, match_case, .. } => Some(
            word::spec_find_replace_script(p, find, replace, match_case),
        ),
        ActionView::WordAppendParagraph { text, style, .. } => Some(
            word::spec_append_paragraph_script(p, text, style),
        ),
        ActionView::WordInsertHeading { text, level, .. } => Some(
            word::spec_insert_heading_script(p, text, level),
        ),
        ActionView::WordSaveAs { dest, .. } => Some(word::spec_save_as_script(p, dest)),
        ActionView::ExcelOpen { .. } => Some(excel::spec_open_script(p)),
        ActionView::ExcelReadRange { sheet, range, .. } => Some(
            excel::spec_read_range_script(p, sheet, range),
        ),
        ActionView::ExcelWriteCell { sheet, cell, value, .. } => Some(
            excel::spec_write_cell_script(p, sheet, cell, value),
        ),
        ActionView::ExcelWriteRange { sheet, range, values, .. } => if values.len() == 0
            || excel::widest(values, values.len()) == 0 {
            None
        } else {
            Some(excel::spec_write_range_script(p, sheet, range, values))
        },
        ActionView::ExcelAddFormula { sheet, cell, formula, .. } => Some(
            excel::spec_add_formula_script(p, sheet, cell, formula),
        ),
        ActionView::PptxAddSlide { title, body, .. } => Some(
            powerpoint::spec_add_slide_script(p, title, body),
        ),
        ActionView::PptxEditText { slide_index, shape_index, text, .. } => Some(
            powerpoint::spec_edit_text_script(p, slide_index, shape_index, text),
        ),
    }
}

/// What an action reports when its script ran without error and printed `out`.
pub open spec fn success_view(a: ActionView, p: Seq<char>, out: Seq<char>) -> ResultView {
    match a {
        ActionView::ExcelReadRange { sheet, range, .. } => ResultView {
            ok: true,
            message: excel::at_message(sheet, range, " を読みました"@),
            data: Some(excel::read_data(out)),
        },
        _ => ResultView {
            ok: true,
            message: match a {
                ActionView::WordOpen { .. } => word::spec_open_message(p),
                ActionView::WordFindReplace { find, replace, .. } =>
                    word::spec_find_replace_message(find, replace),
                ActionView::WordAppendParagraph { .. } => "段落を追加しました"@,
                ActionView::WordInsertHeading { level, .. } => word::spec_insert_heading_message(
                    level,
                ),
                ActionView::WordSaveAs { dest, .. } => word::spec_save_as_message(dest),
                ActionView::ExcelOpen { .. } => excel::spec_open_message(p),
                ActionView::ExcelWriteCell { sheet, cell, .. } => excel::at_message(
                    sheet,
                    cell,
                    " に書き込み完了"@,
                ),
                ActionView::ExcelWriteRange { sheet, range, values, .. } =>
                    excel::spec_write_range_message(
                    sheet,
                    range,
                    values.len(),
                    excel::widest(values, values.len()),
                ),
                ActionView::ExcelAddFormula { sheet, cell, .. } => excel::at_message(
                    sheet,
                    cell,
                    " に数式を設定"@,
                ),
                ActionView::PptxAddSlide { .. } => "スライドを追加しました"@,
                ActionView::PptxEditText { slide_index, shape_index, .. } =>
                    powerpoint::spec_edit_text_message(slide_index, shape_index),
                _ => Seq::empty(),
            },
            data: None,
        },
    }
}

/// What an action reports after its script ran: the success report, or the
/// failure with the run's error message.
pub open spec fn finish_view(a: ActionView, p: Seq<char>, run: Result<Seq<char>, Seq<char>>) -> ResultView {
    match run {
        Ok(out) => success_view(a, p, out),
        Err(e) => ResultView { ok: false, message: e, data: None },
    }
}

pub open spec fn run_view(r: Result<String, String>) -> Result<Seq<char>, Seq<char>> {
    match r {
        Ok(s) => Ok(s@),
        Err(e) => Err(e@),
    }
}

/// The report for writing an empty table.
pub open spec fn empty_table_view() -> ResultView {
    ResultView { ok: false, message: "valuesが空です"@, data: None }
}

/// How an edit proceeds once the sandbox has let it through.
pub struct EditPlan {
    /// The absolute path of the document.
    pub path: String,
    /// Whether to back the document up first.
    pub backup: bool,
    /// The script to run, or the report to give without running one.
    pub step: Result<String, EditResult>,
}

pub open spec fn step_view(s: Result<String, EditResult>) -> Result<Seq<char>, ResultView> {
    match s {
        Ok(script) => Ok(script@),
        Err(r) => Err(r@),
    }
}

/// The script for `action` on the document at `p`, or the report when the
/// action is refused before running.
pub fn action_step(action: &EditAction, p: &str) -> (res: Result<String, EditResult>)
    ensures
        match action_script(action@, p@) {
            Some(s) => step_view(res) == Ok::<Seq<char>, ResultView>(s),
            None => step_view(res) == Err::<Seq<char>, ResultView>(empty_table_view()),
        },
{
    match action {
        EditAction::WordOpen { .. } => Ok(word::open_script(p)),
        EditAction::WordFindReplace { find, replace, match_case, .. } => Ok(
            word::find_replace_script(p, find.as_str(), replace.as_str(), *match_case),
        ),
        EditAction::WordAppendParagraph { text, style, .. } => {
            let st: Option<&str> = match style {
                Some(s) => Some(s.as_str()),
                None => None,
            };
            Ok(word::append_paragraph_script(p, text.as_str(), st))
        },
        EditAction::WordInsertHeading { text, level, .. } => Ok(
            word::insert_heading_script(p, text.as_str(), *level),
        ),
        EditAction::WordSaveAs { dest, .. } => Ok(word::save_as_script(p, dest.as_str())),
        EditAction::ExcelOpen { .. } => Ok(excel::open_script(p)),
        EditAction::ExcelReadRange { sheet, range, .. } => Ok(
            excel::read_range_script(p, sheet.as_str(), range.as_str()),
        ),
        EditAction::ExcelWriteCell { sheet, cell, value, .. } => Ok(
            excel::write_cell_script(p, sheet.as_str(), cell.as_str(), value.as_str()),
        ),
        EditAction::ExcelWriteRange { sheet, range, values, .. } => {
            let cols = excel::widest_row(values);
            if values.len() == 0 || cols == 0 {
                Err(EditResult::err(owned("valuesが空です")))
            } else {
                Ok(excel::write_range_script(p, sheet.as_str(), range.as_str(), values))
            }
        },
        EditAction::ExcelAddFormula { sheet, cell, formula, .. } => Ok(
            excel::add_formula_script(p, sheet.as_str(), cell.as_str(), formula.as_str()),
        ),
        EditAction::PptxAddSlide { title, body, .. } => {
            let t: Option<&str> = match title {
                Some(s) => Some(s.as_str()),
                None => None,
            };
            let b: Option<&str> = match body {
                Some(s) => Some(s.as_str()),
                None => None,
            };
            Ok(powerpoint::add_slide_script(p, t, b))
        },
        EditAction::PptxEditText { slide_index, shape_index, text, .. } => Ok(
            powerpoint::edit_text_script(p, *slide_index, *shape_index, text.as_str()),
        ),
    }
}

/// The report of `action` on the document at `p`, from the outcome of its
/// script: what it printed, or the error of the run.
pub fn finish_edit(action: &EditAction, p: &str, run: Result<String, String>) -> (res: EditResult)
    ensures
        res@ == finish_view(action@, p@, run_view(run)),
{
    let out = match run {
        Ok(out) => out,
        Err(e) => {
            return EditResult::err(e);
        },
    };
    match action {
        EditAction::WordOpen { .. } => EditResult::ok(word::open_message(p)),
        EditAction::WordFindReplace { find, replace, .. } => EditResult::ok(
            word::find_replace_message(find.as_str(), replace.as_str()),
        ),
        EditAction::WordAppendParagraph { .. } => EditResult::ok(word::append_paragraph_message()),
        EditAction::WordInsertHeading { level, .. } => EditResult::ok(
            word::insert_heading_message(*level),
        ),
        EditAction::WordSaveAs { dest, .. } => EditResult::ok(word::save_as_message(dest.as_str())),
        EditAction::ExcelOpen { .. } => EditResult::ok(excel::open_message(p)),
        EditAction::ExcelReadRange { sheet, range, .. } => {
            let data = excel::read_data_exec(out.as_str());
            EditResult::ok_data(
                excel::at_message_exec(sheet.as_str(), range.as_str(), " を読みました"),
                data,
            )
        },
        EditAction::ExcelWriteCell { sheet, cell, .. } => EditResult::ok(
            excel::at_message_exec(sheet.as_str(), cell.as_str(), " に書き込み完了"),
        ),
        EditAction::ExcelWriteRange { sheet, range, values, .. } => {
            let cols = excel::widest_row(values);
            EditResult::ok(
                excel::write_range_message(sheet.as_str(), range.as_str(), values.len(), cols),
            )
        },
        EditAction::ExcelAddFormula { sheet, cell, .. } => EditResult::ok(
            excel::at_message_exec(sheet.as_str(), cell.as_str(), " に数式を設定"),
        ),
        EditAction::PptxAddSlide { .. } => EditResult::ok(powerpoint::add_slide_message()),
        EditAction::PptxEditText { slide_index, shape_index, .. } => EditResult::ok(
            powerpoint::edit_text_message(*slide_index, *shape_index),
        ),
    }
}

/// The report on a platform without Office automation.
pub fn unsupported_platform() -> (res: EditResult)
    ensures
        res@ == (ResultView { ok: false, message: "Windows環境のみサポート"@, data: None }),
{
    EditResult::err(owned("Windows環境のみサポート"))
}

/// The plan for an edit that the sandbox lets through.
pub open spec fn plan_ok(a: ActionView, display: Seq<char>, plan: EditPlan) -> bool {
    &&& plan.path@ == display
    &&& plan.backup == a.is_mutation()
    &&& match action_script(a, display) {
        Some(s) => step_view(plan.step) == Ok::<Seq<char>, ResultView>(s),
        None => step_view(plan.step) == Err::<Seq<char>, ResultView>(empty_table_view()),
    }
}

impl OfficeEditor {
    pub fn new(whitelist: Vec<String>, history_root: String) -> (res: Self)
        ensures
            res.whitelist == whitelist,
            res.history_root == history_root,
            !res.available.word && !res.available.excel && !res.available.powerpoint,
    {
        OfficeEditor { whitelist, history_root, available: OfficeAvailability::default() }
    }

    pub fn any_available(&self) -> (res: bool)
        ensures
            res == (self.available.word || self.available.excel || self.available.powerpoint),
    {
        self.available.word || self.available.excel || self.available.powerpoint
    }

    /// Plans an edit of `target`: refused outside the whitelist (whose
    /// canonical forms are `canonical_roots`); otherwise a backup first for
    /// an action that changes the document, then the action's script.
    pub fn plan(&self, action: &EditAction, target: &ResolvedPath, canonical_roots: &Vec<Vec<String>>) -> (res: Result<EditPlan, EditResult>)
        ensures
            match res {
                Ok(plan) => allowed(views(target.canonical@), roots_view(canonical_roots@))
                    && plan_ok(action@, target.display@, plan),
                Err(r) => !allowed(views(target.canonical@), roots_view(canonical_roots@))
                    && r@ == (ResultView { ok: false, message: refusal(target.display@), data: None }),
            },
    {
        let path = match check_allowed(target, canonical_roots) {
            Ok(p) => p,
            Err(e) => {
                return Err(EditResult::err(e));
            },
        };
        let step = action_step(action, path.as_str());
        Ok(EditPlan { path, backup: action.is_mutation(), step })
    }

    /// Decides which backup restores `target`: refused outside the
    /// whitelist; an error where the path has no file name or the history
    /// could not be read; otherwise the latest backup of the file among the
    /// names in the history, or an error where there is none.
    pub fn undo(&self, target: &ResolvedPath, canonical_roots: &Vec<Vec<String>>, history: Result<Vec<String>, String>) -> (res: Result<String, String>)
        ensures
            !allowed(views(target.canonical@), roots_view(canonical_roots@)) ==> (res matches Err(e)
                && e@ == refusal(target.display@)),
            allowed(views(target.canonical@), roots_view(canonical_roots@)) ==> match target.file_name {
                None => (res matches Err(e) && e@ == "ファイル名が取得できません"@),
                Some(name) => match history {
                    Err(h) => (res matches Err(e) && e@ == h@),
                    Ok(names) => match res {
                        Ok(b) => exists|i: int|
                            is_backup_of(views(names@), name@, i) && b@ == names@[i]@
                                && forall|j: int|
                                is_backup_of(views(names@), name@, j) ==> !crate::office::undo::lex_lt(
                                    views(names@)[i],
                                    views(names@)[j],
                                ),
                        Err(e) => e@ == no_backup(name@) && forall|j: int|
                            !is_backup_of(views(names@), name@, j),
                    },
                },
            },
    {
        match check_allowed(target, canonical_roots) {
            Ok(_) => {},
            Err(e) => {
                return Err(e);
            },
        }
        let name = match &target.file_name {
            Some(n) => n,
            None => {
                return Err(owned("ファイル名が取得できません"));
            },
        };
        let names = match history {
            Ok(names) => names,
            Err(h) => {
                return Err(h);
            },
        };
        match pick_latest_backup(name.as_str(), &names) {
            Ok(i) => Ok(names[i].clone()),
            Err(e) => Err(e),
        }
    }
}

} // verus!
