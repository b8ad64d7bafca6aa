use vstd::prelude::*;
use vstd::string::*;
use crate::json::{JsonValue, JsonView, jview, opt_jview, lookup, find_member};
use crate::pattern::group_view;
use crate::text::{views, str_eq};

verus! {

/// One editing operation on an Office document, as a tool call names it.
#[derive(Debug, Clone)]
pub enum EditAction {
    WordOpen { path: String },
    WordFindReplace { path: String, find: String, replace: String, match_case: bool },
    WordAppendParagraph { path: String, text: String, style: Option<String> },
    WordInsertHeading { path: String, text: String, level: u8 },
    WordSaveAs { path: String, dest: String },
    ExcelOpen { path: String },
    ExcelReadRange { path: String, sheet: String, range: String },
    ExcelWriteCell { path: String, sheet: String, cell: String, value: String },
    ExcelWriteRange { path: String, sheet: String, range: String, values: Vec<Vec<String>> },
    ExcelAddFormula { path: String, sheet: String, cell: String, formula: String },
    PptxAddSlide { path: String, title: Option<String>, body: Option<String> },
    PptxEditText { path: String, slide_index: i32, shape_index: i32, text: String },
}

/// The mathematical value of an [`EditAction`]: each string by its characters.
pub enum ActionView {
    WordOpen { path: Seq<char> },
    WordFindReplace { path: Seq<char>, find: Seq<char>, replace: Seq<char>, match_case: bool },
    WordAppendParagraph { path: Seq<char>, text: Seq<char>, style: Option<Seq<char>> },
    WordInsertHeading { path: Seq<char>, text: Seq<char>, level: u8 },
    WordSaveAs { path: Seq<char>, dest: Seq<char> },
    ExcelOpen { path: Seq<char> },
    ExcelReadRange { path: Seq<char>, sheet: Seq<char>, range: Seq<char> },
    ExcelWriteCell { path: Seq<char>, sheet: Seq<char>, cell: Seq<char>, value: Seq<char> },
    ExcelWriteRange {
        path: Seq<char>,
        sheet: Seq<char>,
        range: Seq<char>,
        values: Seq<Seq<Seq<char>>>,
    },
    ExcelAddFormula { path: Seq<char>, sheet: Seq<char>, cell: Seq<char>, formula: Seq<char> },
    PptxAddSlide { path: Seq<char>, title: Option<Seq<char>>, body: Option<Seq<char>> },
    PptxEditText { path: Seq<char>, slide_index: i32, shape_index: i32, text: Seq<char> },
}

/// The rows of a table of strings, each cell by its characters.
pub open spec fn table_view(t: Seq<Vec<String>>) -> Seq<Seq<Seq<char>>> {
    t.map_values(|r: Vec<String>| views(r@))
}

impl View for EditAction {
    type V = ActionView;

    open spec fn view(&self) -> ActionView {
        match self {
            EditAction::WordOpen { path } => ActionView::WordOpen { path: path@ },
            EditAction::WordFindReplace { path, find, replace, match_case } =>
                ActionView::WordFindReplace {
                path: path@,
                find: find@,
                replace: replace@,
                match_case: *match_case,
            },
            EditAction::WordAppendParagraph { path, text, style } =>
                ActionView::WordAppendParagraph {
                path: path@,
                text: text@,
                style: group_view(*style),
            },
            EditAction::WordInsertHeading { path, text, level } => ActionView::WordInsertHeading {
                path: path@,
                text: text@,
                level: *level,
            },
            EditAction::WordSaveAs { path, dest } => ActionView::WordSaveAs {
                path: path@,
                dest: dest@,
            },
            EditAction::ExcelOpen { path } => ActionView::ExcelOpen { path: path@ },
            EditAction::ExcelReadRange { path, sheet, range } => ActionView::ExcelReadRange {
                path: path@,
                sheet: sheet@,
                range: range@,
            },
            EditAction::ExcelWriteCell { path, sheet, cell, value } =>
                ActionView::ExcelWriteCell {
                path: path@,
                sheet: sheet@,
                cell: cell@,
                value: value@,
            },
            EditAction::ExcelWriteRange { path, sheet, range, values } =>
                ActionView::ExcelWriteRange {
                path: path@,
                sheet: sheet@,
                range: range@,
                values: table_view(values@),
            },
            EditAction::ExcelAddFormula { path, sheet, cell, formula } =>
                ActionView::ExcelAddFormula {
                path: path@,
                sheet: sheet@,
                cell: cell@,
                formula: formula@,
            },
            EditAction::PptxAddSlide { path, title, body } => ActionView::PptxAddSlide {
                path: path@,
                title: group_view(*title),
                body: group_view(*body),
            },
            EditAction::PptxEditText { path, slide_index, shape_index, text } =>
                ActionView::PptxEditText {
                path: path@,
                slide_index: *slide_index,
                shape_index: *shape_index,
                text: text@,
            },
        }
    }
}

impl ActionView {
    /// The document that the action works on.
    pub open spec fn path(self) -> Seq<char> {
        match self {
            ActionView::WordOpen { path } => path,
            ActionView::WordFindReplace { path, .. } => path,
            ActionView::WordAppendParagraph { path, .. } => path,
            ActionView::WordInsertHeading { path, .. } => path,
            ActionView::WordSaveAs { path, .. } => path,
            ActionView::ExcelOpen { path } => path,
            ActionView::ExcelReadRange { path, .. } => path,
            ActionView::ExcelWriteCell { path, .. } => path,
            ActionView::ExcelWriteRange { path, .. } => path,
            ActionView::ExcelAddFormula { path, .. } => path,
            ActionView::PptxAddSlide { path, .. } => path,
            ActionView::PptxEditText { path, .. } => path,
        }
    }

    /// Whether the action changes the document: all but opening a document
    /// and reading a range do.
    pub open spec fn is_mutation(self) -> bool {
        !(self is WordOpen || self is ExcelOpen || self is ExcelReadRange)
    }

    /// The name under which a tool call asks for the action.
    pub open spec fn tool_name(self) -> Seq<char> {
        match self {
            ActionView::WordOpen { .. } => "word_open"@,
            ActionView::WordFindReplace { .. } => "word_find_replace"@,
            ActionView::WordAppendParagraph { .. } => "word_append_paragraph"@,
            ActionView::WordInsertHeading { .. } => "word_insert_heading"@,
            ActionView::WordSaveAs { .. } => "word_save_as"@,
            ActionView::ExcelOpen { .. } => "excel_open"@,
            ActionView::ExcelReadRange { .. } => "excel_read_range"@,
            ActionView::ExcelWriteCell { .. } => "excel_write_cell"@,
            ActionView::ExcelWriteRange { .. } => "excel_write_range"@,
            ActionView::ExcelAddFormula { .. } => "excel_add_formula"@,
            ActionView::PptxAddSlide { .. } => "pptx_add_slide"@,
            ActionView::PptxEditText { .. } => "pptx_edit_text"@,
        }
    }
}

impl EditAction {
    pub fn path(&self) -> (res: &str)
        ensures
            res@ == self@.path(),
    {
        match self {
            EditAction::WordOpen { path } => path.as_str(),
            EditAction::WordFindReplace { path, .. } => path.as_str(),
            EditAction::WordAppendParagraph { path, .. } => path.as_str(),
            EditAction::WordInsertHeading { path, .. } => path.as_str(),
            EditAction::WordSaveAs { path, .. } => path.as_str(),
            EditAction::ExcelOpen { path } => path.as_str(),
            EditAction::ExcelReadRange { path, .. } => path.as_str(),
            EditAction::ExcelWriteCell { path, .. } => path.as_str(),
            EditAction::ExcelWriteRange { path, .. } => path.as_str(),
            EditAction::ExcelAddFormula { path, .. } => path.as_str(),
            EditAction::PptxAddSlide { path, .. } => path.as_str(),
            EditAction::PptxEditText { path, .. } => path.as_str(),
        }
    }

    pub fn is_mutation(&self) -> (res: bool)
        ensures
            res == self@.is_mutation(),
    {
        match self {
            EditAction::WordOpen { .. } => false,
            EditAction::ExcelOpen { .. } => false,
            EditAction::ExcelReadRange { .. } => false,
            _ => true,
        }
    }

    pub fn tool_name(&self) -> (res: &'static str)
        ensures
            res@ == self@.tool_name(),
    {
        match self {
            EditAction::WordOpen { .. } => "word_open",
            EditAction::WordFindReplace { .. } => "word_find_replace",
            EditAction::WordAppendParagraph { .. } => "word_append_paragraph",
            EditAction::WordInsertHeading { .. } => "word_insert_heading",
            EditAction::WordSaveAs { .. } => "word_save_as",
            EditAction::ExcelOpen { .. } => "excel_open",
            EditAction::ExcelReadRange { .. } => "excel_read_range",
            EditAction::ExcelWriteCell { .. } => "excel_write_cell",
            EditAction::ExcelWriteRange { .. } => "excel_write_range",
            EditAction::ExcelAddFormula { .. } => "excel_add_formula",
            EditAction::PptxAddSlide { .. } => "pptx_add_slide",
            EditAction::PptxEditText { .. } => "pptx_edit_text",
        }
    }
}

// ---------------------------------------------------------------------------
// Reading an action from the members of a JSON object
// ---------------------------------------------------------------------------
//
// The object carries the action's name under "tool" and its fields under
// their own names; members that no field names are ignored. A field marked
// optional below may be absent.

/// A required string field.
pub open spec fn field_str(v: Option<JsonView>) -> Option<Seq<char>> {
    match v {
        Some(JsonView::Str(s)) => Some(s),
        _ => None,
    }
}

/// A `bool` field that is `false` where absent.
pub open spec fn field_flag(v: Option<JsonView>) -> Option<bool> {
    match v {
        None => Some(false),
        Some(JsonView::Bool(b)) => Some(b),
        _ => None,
    }
}

/// An optional string field: absent or `null` is `None`.
pub open spec fn field_opt_str(v: Option<JsonView>) -> Option<Option<Seq<char>>> {
    match v {
        None => Some(None),
        Some(JsonView::Null) => Some(None),
        Some(JsonView::Str(s)) => Some(Some(s)),
        _ => None,
    }
}

/// A required `u8` field: an integer from 0 to 255.
pub open spec fn field_u8(v: Option<JsonView>) -> Option<u8> {
    match v {
        Some(JsonView::Int(n)) => if 0 <= n <= 255 {
            Some(n as u8)
        } else {
            None
        },
        _ => None,
    }
}

/// A required `i32` field: an integer in the range of `i32`.
pub open spec fn field_i32(v: Option<JsonView>) -> Option<i32> {
    match v {
        Some(JsonView::Int(n)) => if i32::MIN <= n <= i32::MAX {
            Some(n as i32)
        } else {
            None
        },
        _ => None,
    }
}

/// A row of a table: an array of strings.
pub open spec fn is_str_row(v: JsonView) -> bool {
    match v {
        JsonView::Array(a) => forall|j: int| 0 <= j < a.len() ==> (#[trigger] a[j]) is Str,
        _ => false,
    }
}

pub open spec fn row_view(v: JsonView) -> Seq<Seq<char>> {
    match v {
        JsonView::Array(a) => a.map_values(|x: JsonView| x->Str_0),
        _ => Seq::empty(),
    }
}

/// A required table field: an array of arrays of strings.
pub open spec fn field_table(v: Option<JsonView>) -> Option<Seq<Seq<Seq<char>>>> {
    match v {
        Some(JsonView::Array(rows)) => if forall|i: int|
            0 <= i < rows.len() ==> is_str_row(#[trigger] rows[i]) {
            Some(rows.map_values(|r: JsonView| row_view(r)))
        } else {
            None
        },
        _ => None,
    }
}

/// The action that the members `get` describe, or `None` where they
/// describe none.
pub open spec fn decode_action(get: spec_fn(Seq<char>) -> Option<JsonView>) -> Option<
    ActionView,
> {
    let path = field_str(get("path"@));
    match field_str(get("tool"@)) {
        None => None,
        Some(t) => if path is None {
            None
        } else if t == "word_open"@ {
            Some(ActionView::WordOpen { path: path->0 })
        } else if t == "word_find_replace"@ {
            match (field_str(get("find"@)), field_str(get("replace"@)), field_flag(get("match_case"@))) {
                (Some(find), Some(replace), Some(match_case)) => Some(
                    ActionView::WordFindReplace { path: path->0, find, replace, match_case },
                ),
                _ => None,
            }
        } else if t == "word_append_paragraph"@ {
            match (field_str(get("text"@)), field_opt_str(get("style"@))) {
                (Some(text), Some(style)) => Some(
                    ActionView::WordAppendParagraph { path: path->0, text, style },
                ),
                _ => None,
            }
        } else if t == "word_insert_heading"@ {
            match (field_str(get("text"@)), field_u8(get("level"@))) {
                (Some(text), Some(level)) => Some(
                    ActionView::WordInsertHeading { path: path->0, text, level },
                ),
                _ => None,
            }
        } else if t == "word_save_as"@ {
            match field_str(get("dest"@)) {
                Some(dest) => Some(ActionView::WordSaveAs { path: path->0, dest }),
                _ => None,
            }
        } else if t == "excel_open"@ {
            Some(ActionView::ExcelOpen { path: path->0 })
        } else if t == "excel_read_range"@ {
            match (field_str(get("sheet"@)), field_str(get("range"@))) {
                (Some(sheet), Some(range)) => Some(
                    ActionView::ExcelReadRange { path: path->0, sheet, range },
                ),
                _ => None,
            }
        } else if t == "excel_write_cell"@ {
            match (field_str(get("sheet"@)), field_str(get("cell"@)), field_str(get("value"@))) {
                (Some(sheet), Some(cell), Some(value)) => Some(
                    ActionView::ExcelWriteCell { path: path->0, sheet, cell, value },
                ),
                _ => None,
            }
        } else if t == "excel_write_range"@ {
            match (field_str(get("sheet"@)), field_str(get("range"@)), field_table(get("values"@))) {
                (Some(sheet), Some(range), Some(values)) => Some(
                    ActionView::ExcelWriteRange { path: path->0, sheet, range, values },
                ),
                _ => None,
            }
        } else if t == "excel_add_formula"@ {
            match (field_str(get("sheet"@)), field_str(get("cell"@)), field_str(get("formula"@))) {
                (Some(sheet), Some(cell), Some(formula)) => Some(
                    ActionView::ExcelAddFormula { path: path->0, sheet, cell, formula },
                ),
                _ => None,
            }
        } else if t == "pptx_add_slide"@ {
            match (field_opt_str(get("title"@)), field_opt_str(get("body"@))) {
                (Some(title), Some(body)) => Some(
                    ActionView::PptxAddSlide { path: path->0, title, body },
                ),
                _ => None,
            }
        } else if t == "pptx_edit_text"@ {
            match (field_i32(get("slide_index"@)), field_i32(get("shape_index"@)), field_str(get("text"@))) {
                (Some(slide_index), Some(shape_index), Some(text)) => Some(
                    ActionView::PptxEditText { path: path->0, slide_index, shape_index, text },
                ),
                _ => None,
            }
        } else {
            None
        },
    }
}

/// A decoded action is the one the object names: its tool name is the
/// object's "tool" member and its path the "path" member.
pub proof fn lemma_decoded_action_matches_request(get: spec_fn(Seq<char>) -> Option<JsonView>)
    ensures
        decode_action(get) matches Some(a) ==> get("tool"@) == Some(JsonView::Str(a.tool_name()))
            && get("path"@) == Some(JsonView::Str(a.path())),
{
}

/// Facts about the tool names that tell them apart.
proof fn lemma_tool_name_facts()
    ensures
        "word_open"@.len() == 9,
        "word_find_replace"@.len() == 17,
        "word_append_paragraph"@.len() == 21,
        "word_insert_heading"@.len() == 19,
        "word_save_as"@.len() == 12,
        "excel_open"@.len() == 10,
        "excel_read_range"@.len() == 16,
        "excel_write_cell"@.len() == 16,
        "excel_write_range"@.len() == 17,
        "excel_add_formula"@.len() == 17,
        "pptx_add_slide"@.len() == 14,
        "pptx_edit_text"@.len() == 14,
        "pptx_add_slide"@ != "pptx_edit_text"@,
{
    reveal_strlit("word_open");
    reveal_strlit("word_find_replace");
    reveal_strlit("word_append_paragraph");
    reveal_strlit("word_insert_heading");
    reveal_strlit("word_save_as");
    reveal_strlit("excel_open");
    reveal_strlit("excel_read_range");
    reveal_strlit("excel_write_cell");
    reveal_strlit("excel_write_range");
    reveal_strlit("excel_add_formula");
    reveal_strlit("pptx_add_slide");
    reveal_strlit("pptx_edit_text");
    assert("word_open"@.len() == 9 && "word_open"@[0] == 'w' && "word_open"@[5] == 'o' && "word_open"@[6] == 'p');
    assert("word_find_replace"@.len() == 17 && "word_find_replace"@[0] == 'w' && "word_find_replace"@[5] == 'f' && "word_find_replace"@[6] == 'i');
    assert("word_append_paragraph"@.len() == 21 && "word_append_paragraph"@[0] == 'w' && "word_append_paragraph"@[5] == 'a' && "word_append_paragraph"@[6] == 'p');
    assert("word_insert_heading"@.len() == 19 && "word_insert_heading"@[0] == 'w' && "word_insert_heading"@[5] == 'i' && "word_insert_heading"@[6] == 'n');
    assert("word_save_as"@.len() == 12 && "word_save_as"@[0] == 'w' && "word_save_as"@[5] == 's' && "word_save_as"@[6] == 'a');
    assert("excel_open"@.len() == 10 && "excel_open"@[0] == 'e' && "excel_open"@[5] == '_' && "excel_open"@[6] == 'o');
    assert("excel_read_range"@.len() == 16 && "excel_read_range"@[0] == 'e' && "excel_read_range"@[5] == '_' && "excel_read_range"@[6] == 'r');
    assert("excel_write_cell"@.len() == 16 && "excel_write_cell"@[0] == 'e' && "excel_write_cell"@[5] == '_' && "excel_write_cell"@[6] == 'w');
    assert("excel_write_range"@.len() == 17 && "excel_write_range"@[0] == 'e' && "excel_write_range"@[5] == '_' && "excel_write_range"@[6] == 'w');
    assert("excel_add_formula"@.len() == 17 && "excel_add_formula"@[0] == 'e' && "excel_add_formula"@[5] == '_' && "excel_add_formula"@[6] == 'a');
    assert("pptx_add_slide"@.len() == 14 && "pptx_add_slide"@[0] == 'p' && "pptx_add_slide"@[5] == 'a' && "pptx_add_slide"@[6] == 'd');
    assert("pptx_edit_text"@.len() == 14 && "pptx_edit_text"@[0] == 'p' && "pptx_edit_text"@[5] == 'e' && "pptx_edit_text"@[6] == 'd');
}

/// An optional field that is absent reads as `None`: a paragraph-append call
/// with a path and a text and no "style" member is that call with no style.
pub proof fn lemma_paragraph_without_style(
    get: spec_fn(Seq<char>) -> Option<JsonView>,
    path: Seq<char>,
    text: Seq<char>,
)
    requires
        get("tool"@) == Some(JsonView::Str("word_append_paragraph"@)),
        get("path"@) == Some(JsonView::Str(path)),
        get("text"@) == Some(JsonView::Str(text)),
        get("style"@) is None,
    ensures
        decode_action(get) == Some(ActionView::WordAppendParagraph { path, text, style: None }),
{
    lemma_tool_name_facts();
}

/// Optional fields that are absent read as `None`: a slide-adding call with
/// a path and no "title" or "body" member is that call with neither.
pub proof fn lemma_slide_without_title_or_body(
    get: spec_fn(Seq<char>) -> Option<JsonView>,
    path: Seq<char>,
)
    requires
        get("tool"@) == Some(JsonView::Str("pptx_add_slide"@)),
        get("path"@) == Some(JsonView::Str(path)),
        get("title"@) is None,
        get("body"@) is None,
    ensures
        decode_action(get) == Some(ActionView::PptxAddSlide { path, title: None, body: None }),
{
    lemma_tool_name_facts();
}

/// The tool names of the actions, in the order of the tool catalogue.
pub open spec fn tool_names() -> Seq<Seq<char>> {
    seq![
        "word_open"@,
        "word_find_replace"@,
        "word_append_paragraph"@,
        "word_insert_heading"@,
        "word_save_as"@,
        "excel_open"@,
        "excel_read_range"@,
        "excel_write_cell"@,
        "excel_write_range"@,
        "excel_add_formula"@,
        "pptx_add_slide"@,
        "pptx_edit_text"@,
    ]
}

/// The position of an action's kind in `tool_names`.
pub open spec fn kind_index(a: ActionView) -> int {
    match a {
        ActionView::WordOpen { .. } => 0,
        ActionView::WordFindReplace { .. } => 1,
        ActionView::WordAppendParagraph { .. } => 2,
        ActionView::WordInsertHeading { .. } => 3,
        ActionView::WordSaveAs { .. } => 4,
        ActionView::ExcelOpen { .. } => 5,
        ActionView::ExcelReadRange { .. } => 6,
        ActionView::ExcelWriteCell { .. } => 7,
        ActionView::ExcelWriteRange { .. } => 8,
        ActionView::ExcelAddFormula { .. } => 9,
        ActionView::PptxAddSlide { .. } => 10,
        ActionView::PptxEditText { .. } => 11,
    }
}

/// Each action's tool name is the catalogue's name for its kind, and two
/// actions share a tool name exactly where they are of the same kind: the
/// twelve kinds have twelve distinct names.
pub proof fn lemma_tool_names(a: ActionView, b: ActionView)
    ensures
        0 <= kind_index(a) < 12,
        tool_names().len() == 12,
        a.tool_name() == tool_names()[kind_index(a)],
        a.tool_name() == b.tool_name() <==> kind_index(a) == kind_index(b),
{
    reveal_strlit("word_open");
    reveal_strlit("word_find_replace");
    reveal_strlit("word_append_paragraph");
    reveal_strlit("word_insert_heading");
    reveal_strlit("word_save_as");
    reveal_strlit("excel_open");
    reveal_strlit("excel_read_range");
    reveal_strlit("excel_write_cell");
    reveal_strlit("excel_write_range");
    reveal_strlit("excel_add_formula");
    reveal_strlit("pptx_add_slide");
    reveal_strlit("pptx_edit_text");
    assert("word_open"@.len() == 9 && "word_open"@[0] == 'w' && "word_open"@[5] == 'o' && "word_open"@[6] == 'p');
    assert("word_find_replace"@.len() == 17 && "word_find_replace"@[0] == 'w' && "word_find_replace"@[5] == 'f' && "word_find_replace"@[6] == 'i');
    assert("word_append_paragraph"@.len() == 21 && "word_append_paragraph"@[0] == 'w' && "word_append_paragraph"@[5] == 'a' && "word_append_paragraph"@[6] == 'p');
    assert("word_insert_heading"@.len() == 19 && "word_insert_heading"@[0] == 'w' && "word_insert_heading"@[5] == 'i' && "word_insert_heading"@[6] == 'n');
    assert("word_save_as"@.len() == 12 && "word_save_as"@[0] == 'w' && "word_save_as"@[5] == 's' && "word_save_as"@[6] == 'a');
    assert("excel_open"@.len() == 10 && "excel_open"@[0] == 'e' && "excel_open"@[5] == '_' && "excel_open"@[6] == 'o');
    assert("excel_read_range"@.len() == 16 && "excel_read_range"@[0] == 'e' && "excel_read_range"@[5] == '_' && "excel_read_range"@[6] == 'r');
    assert("excel_write_cell"@.len() == 16 && "excel_write_cell"@[0] == 'e' && "excel_write_cell"@[5] == '_' && "excel_write_cell"@[6] == 'w');
    assert("excel_write_range"@.len() == 17 && "excel_write_range"@[0] == 'e' && "excel_write_range"@[5] == '_' && "excel_write_range"@[6] == 'w');
    assert("excel_add_formula"@.len() == 17 && "excel_add_formula"@[0] == 'e' && "excel_add_formula"@[5] == '_' && "excel_add_formula"@[6] == 'a');
    assert("pptx_add_slide"@.len() == 14 && "pptx_add_slide"@[0] == 'p' && "pptx_add_slide"@[5] == 'a' && "pptx_add_slide"@[6] == 'd');
    assert("pptx_edit_text"@.len() == 14 && "pptx_edit_text"@[0] == 'p' && "pptx_edit_text"@[5] == 'e' && "pptx_edit_text"@[6] == 'd');
}

/// A string member value.
pub open spec fn str_json(s: Seq<char>) -> JsonView {
    JsonView::Str(s)
}

/// An optional string: the string, or `null`.
pub open spec fn opt_str_json(s: Option<Seq<char>>) -> JsonView {
    match s {
        Some(t) => JsonView::Str(t),
        None => JsonView::Null,
    }
}

/// A row of strings as a JSON array.
pub open spec fn row_json(r: Seq<Seq<char>>) -> JsonView {
    JsonView::Array(r.map_values(|c: Seq<char>| JsonView::Str(c)))
}

/// A table of strings as a JSON array of rows.
pub open spec fn table_json(t: Seq<Seq<Seq<char>>>) -> JsonView {
    JsonView::Array(t.map_values(|r: Seq<Seq<char>>| row_json(r)))
}

/// The fields of an action after its path, as JSON members.
pub open spec fn field_members(a: ActionView) -> Seq<(Seq<char>, JsonView)> {
    match a {
        ActionView::WordOpen { .. } => Seq::empty(),
        ActionView::WordFindReplace { find, replace, match_case, .. } => seq![
            ("find"@, str_json(find)),
            ("replace"@, str_json(replace)),
            ("match_case"@, JsonView::Bool(match_case)),
        ],
        ActionView::WordAppendParagraph { text, style, .. } => seq![
            ("text"@, str_json(text)),
            ("style"@, opt_str_json(style)),
        ],
        ActionView::WordInsertHeading { text, level, .. } => seq![
            ("text"@, str_json(text)),
            ("level"@, JsonView::Int(level as int)),
        ],
        ActionView::WordSaveAs { dest, .. } => seq![("dest"@, str_json(dest))],
        ActionView::ExcelOpen { .. } => Seq::empty(),
        ActionView::ExcelReadRange { sheet, range, .. } => seq![
            ("sheet"@, str_json(sheet)),
            ("range"@, str_json(range)),
        ],
        ActionView::ExcelWriteCell { sheet, cell, value, .. } => seq![
            ("sheet"@, str_json(sheet)),
            ("cell"@, str_json(cell)),
            ("value"@, str_json(value)),
        ],
        ActionView::ExcelWriteRange { sheet, range, values, .. } => seq![
            ("sheet"@, str_json(sheet)),
            ("range"@, str_json(range)),
            ("values"@, table_json(values)),
        ],
        ActionView::ExcelAddFormula { sheet, cell, formula, .. } => seq![
            ("sheet"@, str_json(sheet)),
            ("cell"@, str_json(cell)),
            ("formula"@, str_json(formula)),
        ],
        ActionView::PptxAddSlide { title, body, .. } => seq![
            ("title"@, opt_str_json(title)),
            ("body"@, opt_str_json(body)),
        ],
        ActionView::PptxEditText { slide_index, shape_index, text, .. } => seq![
            ("slide_index"@, JsonView::Int(slide_index as int)),
            ("shape_index"@, JsonView::Int(shape_index as int)),
            ("text"@, str_json(text)),
        ],
    }
}

/// The members of the JSON object that stands for an action: its tool name
/// under "tool", its path under "path", then each other field under its own
/// name.
pub open spec fn action_json(a: ActionView) -> Seq<(Seq<char>, JsonView)> {
    seq![("tool"@, str_json(a.tool_name())), ("path"@, str_json(a.path()))] + field_members(a)
}

/// The members `m` of an object, looked up by name.
pub open spec fn view_members(m: Seq<(Seq<char>, JsonView)>) -> spec_fn(Seq<char>) -> Option<JsonView> {
    |k: Seq<char>| crate::json::lookup_view(m, k)
}

proof fn lemma_table_json(t: Seq<Seq<Seq<char>>>)
    ensures
        field_table(Some(table_json(t))) == Some(t),
{
    let rows = t.map_values(|r: Seq<Seq<char>>| row_json(r));
    assert forall|i: int| 0 <= i < rows.len() implies is_str_row(#[trigger] rows[i]) by {
        let a = t[i].map_values(|c: Seq<char>| JsonView::Str(c));
        assert forall|j: int| 0 <= j < a.len() implies (#[trigger] a[j]) is Str by {}
    }
    assert forall|i: int| 0 <= i < rows.len() implies #[trigger] row_view(rows[i]) == t[i] by {
        assert(row_view(rows[i]) =~= t[i]);
    }
    assert(rows.map_values(|r: JsonView| row_view(r)) =~= t);
}

/// The object that stands for an action reads back as that action: its
/// "tool" member is the action's tool name, and decoding it gives the action.
pub proof fn lemma_action_json_roundtrip(a: ActionView)
    ensures
        view_members(action_json(a))("tool"@) == Some(JsonView::Str(a.tool_name())),
        decode_action(view_members(action_json(a))) == Some(a),
{
    reveal_strlit("tool");
    reveal_strlit("path");
    reveal_strlit("find");
    reveal_strlit("replace");
    reveal_strlit("match_case");
    reveal_strlit("text");
    reveal_strlit("style");
    reveal_strlit("level");
    reveal_strlit("dest");
    reveal_strlit("sheet");
    reveal_strlit("range");
    reveal_strlit("cell");
    reveal_strlit("value");
    reveal_strlit("values");
    reveal_strlit("formula");
    reveal_strlit("title");
    reveal_strlit("body");
    reveal_strlit("slide_index");
    reveal_strlit("shape_index");
    reveal_strlit("word_open");
    reveal_strlit("word_find_replace");
    reveal_strlit("word_append_paragraph");
    reveal_strlit("word_insert_heading");
    reveal_strlit("word_save_as");
    reveal_strlit("excel_open");
    reveal_strlit("excel_read_range");
    reveal_strlit("excel_write_cell");
    reveal_strlit("excel_write_range");
    reveal_strlit("excel_add_formula");
    reveal_strlit("pptx_add_slide");
    reveal_strlit("pptx_edit_text");
    let m = action_json(a);
    reveal_with_fuel(crate::json::lookup_view, 6);
    assert("word_open"@.len() == 9 && "word_open"@[0] == 'w' && "word_open"@[6] == 'p');
    assert("word_find_replace"@.len() == 17 && "word_find_replace"@[0] == 'w' && "word_find_replace"@[6] == 'i');
    assert("word_append_paragraph"@.len() == 21 && "word_append_paragraph"@[0] == 'w' && "word_append_paragraph"@[6] == 'p');
    assert("word_insert_heading"@.len() == 19 && "word_insert_heading"@[0] == 'w' && "word_insert_heading"@[6] == 'n');
    assert("word_save_as"@.len() == 12 && "word_save_as"@[0] == 'w' && "word_save_as"@[6] == 'a');
    assert("excel_open"@.len() == 10 && "excel_open"@[0] == 'e' && "excel_open"@[6] == 'o');
    assert("excel_read_range"@.len() == 16 && "excel_read_range"@[0] == 'e' && "excel_read_range"@[6] == 'r');
    assert("excel_write_cell"@.len() == 16 && "excel_write_cell"@[0] == 'e' && "excel_write_cell"@[6] == 'w');
    assert("excel_write_range"@.len() == 17 && "excel_write_range"@[0] == 'e' && "excel_write_range"@[6] == 'w');
    assert("excel_add_formula"@.len() == 17 && "excel_add_formula"@[0] == 'e' && "excel_add_formula"@[6] == 'a');
    assert("pptx_add_slide"@.len() == 14 && "pptx_add_slide"@[0] == 'p' && "pptx_add_slide"@[6] == 'd');
    assert("pptx_edit_text"@.len() == 14 && "pptx_edit_text"@[0] == 'p' && "pptx_edit_text"@[5] == 'e');
    assert("pptx_add_slide"@[5] == 'a');
    assert("tool"@[0] == 't' && "tool"@[1] == 'o');
    assert("path"@[0] == 'p');
    assert("find"@[0] == 'f');
    assert("replace"@[0] == 'r');
    assert("match_case"@[0] == 'm');
    assert("text"@[0] == 't' && "text"@[1] == 'e');
    assert("style"@[0] == 's');
    assert("level"@[0] == 'l');
    assert("dest"@[0] == 'd');
    assert("sheet"@[0] == 's' && "sheet"@[1] == 'h');
    assert("range"@[0] == 'r');
    assert("cell"@[0] == 'c');
    assert("value"@[0] == 'v');
    assert("values"@[0] == 'v');
    assert("formula"@[0] == 'f');
    assert("title"@[0] == 't' && "title"@.len() == 5);
    assert("body"@[0] == 'b');
    assert("slide_index"@[0] == 's' && "slide_index"@[1] == 'l');
    assert("shape_index"@[0] == 's' && "shape_index"@[1] == 'h' && "shape_index"@[2] == 'a');
    match a {
        ActionView::ExcelWriteRange { values, .. } => {
            lemma_table_json(values);
        },
        _ => {},
    }
}

fn str_value(s: &String) -> (res: JsonValue)
    ensures
        jview(res) == str_json(s@),
{
    JsonValue::Str(s.clone())
}

fn opt_str_value(o: &Option<String>) -> (res: JsonValue)
    ensures
        jview(res) == opt_str_json(group_view(*o)),
{
    match o {
        Some(s) => JsonValue::Str(s.clone()),
        None => JsonValue::Null,
    }
}

fn row_value(r: &Vec<String>) -> (res: JsonValue)
    ensures
        jview(res) == row_json(views(r@)),
{
    let mut out: Vec<JsonValue> = Vec::new();
    let mut j: usize = 0;
    while j < r.len()
        invariant
            j <= r.len(),
            out.len() == j,
            forall|k: int| 0 <= k < j ==> jview(#[trigger] out@[k]) == JsonView::Str(r@[k]@),
        decreases r.len() - j,
    {
        out.push(JsonValue::Str(r[j].clone()));
        j = j + 1;
    }
    proof {
        crate::json::lemma_jview_array(out);
        assert(Seq::new(out@.len(), |i: int| jview(out@[i])) =~= views(r@).map_values(
            |c: Seq<char>| JsonView::Str(c),
        ));
    }
    JsonValue::Array(out)
}

fn table_value(t: &Vec<Vec<String>>) -> (res: JsonValue)
    ensures
        jview(res) == table_json(table_view(t@)),
{
    let mut out: Vec<JsonValue> = Vec::new();
    let mut i: usize = 0;
    while i < t.len()
        invariant
            i <= t.len(),
            out.len() == i,
            forall|k: int| 0 <= k < i ==> jview(#[trigger] out@[k]) == row_json(views(t@[k]@)),
        decreases t.len() - i,
    {
        out.push(row_value(&t[i]));
        i = i + 1;
    }
    proof {
        crate::json::lemma_jview_array(out);
        assert(Seq::new(out@.len(), |k: int| jview(out@[k])) =~= table_view(t@).map_values(
            |r: Seq<Seq<char>>| row_json(r),
        ));
    }
    JsonValue::Array(out)
}

fn key(k: &str) -> (res: String)
    ensures
        res@ == k@,
{
    crate::text::owned(k)
}

/// The JSON object that stands for `action`: its tool name under "tool",
/// its path under "path", then its other fields under their own names. It
/// reads back as the same action (`lemma_action_json_roundtrip`).
pub fn encode_action(action: &EditAction) -> (res: JsonValue)
    ensures
        jview(res) == JsonView::Object(action_json(action@)),
{
    let mut m: Vec<(String, JsonValue)> = Vec::new();
    m.push((key("tool"), JsonValue::Str(key(action.tool_name()))));
    m.push((key("path"), JsonValue::Str(key(action.path()))));
    match action {
        EditAction::WordOpen { .. } => {},
        EditAction::WordFindReplace { find, replace, match_case, .. } => {
            m.push((key("find"), str_value(find)));
            m.push((key("replace"), str_value(replace)));
            m.push((key("match_case"), JsonValue::Bool(*match_case)));
        },
        EditAction::WordAppendParagraph { text, style, .. } => {
            m.push((key("text"), str_value(text)));
            m.push((key("style"), opt_str_value(style)));
        },
        EditAction::WordInsertHeading { text, level, .. } => {
            m.push((key("text"), str_value(text)));
            m.push((key("level"), JsonValue::Int(*level as i128)));
        },
        EditAction::WordSaveAs { dest, .. } => {
            m.push((key("dest"), str_value(dest)));
        },
        EditAction::ExcelOpen { .. } => {},
        EditAction::ExcelReadRange { sheet, range, .. } => {
            m.push((key("sheet"), str_value(sheet)));
            m.push((key("range"), str_value(range)));
        },
        EditAction::ExcelWriteCell { sheet, cell, value, .. } => {
            m.push((key("sheet"), str_value(sheet)));
            m.push((key("cell"), str_value(cell)));
            m.push((key("value"), str_value(value)));
        },
        EditAction::ExcelWriteRange { sheet, range, values, .. } => {
            m.push((key("sheet"), str_value(sheet)));
            m.push((key("range"), str_value(range)));
            m.push((key("values"), table_value(values)));
        },
        EditAction::ExcelAddFormula { sheet, cell, formula, .. } => {
            m.push((key("sheet"), str_value(sheet)));
            m.push((key("cell"), str_value(cell)));
            m.push((key("formula"), str_value(formula)));
        },
        EditAction::PptxAddSlide { title, body, .. } => {
            m.push((key("title"), opt_str_value(title)));
            m.push((key("body"), opt_str_value(body)));
        },
        EditAction::PptxEditText { slide_index, shape_index, text, .. } => {
            m.push((key("slide_index"), JsonValue::Int(*slide_index as i128)));
            m.push((key("shape_index"), JsonValue::Int(*shape_index as i128)));
            m.push((key("text"), str_value(text)));
        },
    }
    proof {
        crate::json::lemma_jview_object(m);
        assert(crate::json::members_view(m@) =~= action_json(action@));
    }
    JsonValue::Object(m)
}

pub open spec fn action_opt_view(a: Option<EditAction>) -> Option<ActionView> {
    match a {
        Some(x) => Some(x@),
        None => None,
    }
}

/// The members of `m`, looked up by name.
pub open spec fn members(m: Seq<(String, JsonValue)>) -> spec_fn(Seq<char>) -> Option<JsonView> {
    |k: Seq<char>| opt_jview(lookup(m, k))
}

fn get_member<'a>(m: &'a Vec<(String, JsonValue)>, key: &str) -> (res: Option<&'a JsonValue>)
    ensures
        match res {
            Some(v) => lookup(m@, key@) == Some(*v),
            None => lookup(m@, key@) is None,
        },
{
    proof {
        crate::json::lemma_member_index(m@, key@);
    }
    match find_member(m, key) {
        Some(i) => Some(&m[i].1),
        None => None,
    }
}

fn read_str(m: &Vec<(String, JsonValue)>, key: &str) -> (res: Option<String>)
    ensures
        group_view(res) == field_str(opt_jview(lookup(m@, key@))),
{
    match get_member(m, key) {
        Some(JsonValue::Str(s)) => Some(s.clone()),
        _ => None,
    }
}

fn read_flag(m: &Vec<(String, JsonValue)>, key: &str) -> (res: Option<bool>)
    ensures
        res == field_flag(opt_jview(lookup(m@, key@))),
{
    match get_member(m, key) {
        None => Some(false),
        Some(JsonValue::Bool(b)) => Some(*b),
        _ => None,
    }
}

fn read_opt_str(m: &Vec<(String, JsonValue)>, key: &str) -> (res: Option<Option<String>>)
    ensures
        match res {
            Some(o) => field_opt_str(opt_jview(lookup(m@, key@))) == Some(group_view(o)),
            None => field_opt_str(opt_jview(lookup(m@, key@))) is None,
        },
{
    match get_member(m, key) {
        None => Some(None),
        Some(JsonValue::Null) => Some(None),
        Some(JsonValue::Str(s)) => Some(Some(s.clone())),
        _ => None,
    }
}

fn read_u8(m: &Vec<(String, JsonValue)>, key: &str) -> (res: Option<u8>)
    ensures
        res == field_u8(opt_jview(lookup(m@, key@))),
{
    match get_member(m, key) {
        Some(JsonValue::Int(n)) => if 0 <= *n && *n <= 255 {
            Some(*n as u8)
        } else {
            None
        },
        _ => None,
    }
}

fn read_i32(m: &Vec<(String, JsonValue)>, key: &str) -> (res: Option<i32>)
    ensures
        res == field_i32(opt_jview(lookup(m@, key@))),
{
    match get_member(m, key) {
        Some(JsonValue::Int(n)) => if -2147483648 <= *n && *n <= 2147483647 {
            Some(*n as i32)
        } else {
            None
        },
        _ => None,
    }
}

fn read_row(v: &JsonValue) -> (res: Option<Vec<String>>)
    ensures
        match res {
            Some(r) => is_str_row(jview(*v)) && views(r@) == row_view(jview(*v)),
            None => !is_str_row(jview(*v)),
        },
{
    match v {
        JsonValue::Array(a) => {
            let ghost av = jview(*v)->Array_0;
            assert(av.len() == a@.len());
            assert(forall|k: int| 0 <= k < a@.len() ==> #[trigger] av[k] == jview(a@[k]));
            let mut out: Vec<String> = Vec::new();
            let mut j: usize = 0;
            while j < a.len()
                invariant
                    *v == JsonValue::Array(*a),
                    av == jview(*v)->Array_0,
                    av.len() == a@.len(),
                    forall|k: int| 0 <= k < a@.len() ==> #[trigger] av[k] == jview(a@[k]),
                    j <= a.len(),
                    out.len() == j,
                    forall|k: int| 0 <= k < j ==> (#[trigger] av[k]) is Str,
                    forall|k: int| 0 <= k < j ==> (#[trigger] out@[k])@ == av[k]->Str_0,
                decreases a.len() - j,
            {
                assert(av[j as int] == jview(a@[j as int]));
                match &a[j] {
                    JsonValue::Str(s) => {
                        out.push(s.clone());
                    },
                    _ => {
                        assert(!(av[j as int] is Str));
                        return None;
                    },
                }
                j = j + 1;
            }
            assert(views(out@) =~= row_view(jview(*v)));
            Some(out)
        },
        _ => None,
    }
}

fn read_table(m: &Vec<(String, JsonValue)>, key: &str) -> (res: Option<Vec<Vec<String>>>)
    ensures
        match res {
            Some(t) => field_table(opt_jview(lookup(m@, key@))) == Some(table_view(t@)),
            None => field_table(opt_jview(lookup(m@, key@))) is None,
        },
{
    match get_member(m, key) {
        Some(JsonValue::Array(rows)) => {
            let ghost rv = jview(JsonValue::Array(*rows))->Array_0;
            assert(rv.len() == rows@.len());
            assert(forall|k: int| 0 <= k < rows@.len() ==> #[trigger] rv[k] == jview(rows@[k]));
            let mut out: Vec<Vec<String>> = Vec::new();
            let mut i: usize = 0;
            while i < rows.len()
                invariant
                    lookup(m@, key@) == Some(JsonValue::Array(*rows)),
                    rv == jview(JsonValue::Array(*rows))->Array_0,
                    rv.len() == rows@.len(),
                    forall|k: int| 0 <= k < rows@.len() ==> #[trigger] rv[k] == jview(rows@[k]),
                    i <= rows.len(),
                    out.len() == i,
                    forall|k: int| 0 <= k < i ==> is_str_row(#[trigger] rv[k]),
                    forall|k: int| 0 <= k < i ==> views((#[trigger] out@[k])@) == row_view(rv[k]),
                decreases rows.len() - i,
            {
                assert(rv[i as int] == jview(rows@[i as int]));
                match read_row(&rows[i]) {
                    Some(r) => {
                        out.push(r);
                    },
                    None => {
                        assert(!is_str_row(rv[i as int]));
                        return None;
                    },
                }
                i = i + 1;
            }
            assert(table_view(out@) =~= rv.map_values(|r: JsonView| row_view(r)));
            Some(out)
        },
        _ => None,
    }
}

/// Reads the action that the members of `m` describe
/// (`serde_json::from_value::<EditAction>` on the object).
pub fn decode_action_exec(m: &Vec<(String, JsonValue)>) -> (res: Option<EditAction>)
    ensures
        action_opt_view(res) == decode_action(members(m@)),
{
    let ghost get = members(m@);
    let tool = match read_str(m, "tool") {
        Some(t) => t,
        None => {
            return None;
        },
    };
    let path = match read_str(m, "path") {
        Some(p) => p,
        None => {
            return None;
        },
    };
    let t = tool.as_str();
    if str_eq(t, "word_open") {
        Some(EditAction::WordOpen { path })
    } else if str_eq(t, "word_find_replace") {
        match (read_str(m, "find"), read_str(m, "replace"), read_flag(m, "match_case")) {
            (Some(find), Some(replace), Some(match_case)) => Some(
                EditAction::WordFindReplace { path, find, replace, match_case },
            ),
            _ => None,
        }
    } else if str_eq(t, "word_append_paragraph") {
        match (read_str(m, "text"), read_opt_str(m, "style")) {
            (Some(text), Some(style)) => Some(EditAction::WordAppendParagraph { path, text, style }),
            _ => None,
        }
    } else if str_eq(t, "word_insert_heading") {
        match (read_str(m, "text"), read_u8(m, "level")) {
            (Some(text), Some(level)) => Some(EditAction::WordInsertHeading { path, text, level }),
            _ => None,
        }
    } else if str_eq(t, "word_save_as") {
        match read_str(m, "dest") {
            Some(dest) => Some(EditAction::WordSaveAs { path, dest }),
            _ => None,
        }
    } else if str_eq(t, "excel_open") {
        Some(EditAction::ExcelOpen { path })
    } else if str_eq(t, "excel_read_range") {
        match (read_str(m, "sheet"), read_str(m, "range")) {
            (Some(sheet), Some(range)) => Some(EditAction::ExcelReadRange { path, sheet, range }),
            _ => None,
        }
    } else if str_eq(t, "excel_write_cell") {
        match (read_str(m, "sheet"), read_str(m, "cell"), read_str(m, "value")) {
            (Some(sheet), Some(cell), Some(value)) => Some(
                EditAction::ExcelWriteCell { path, sheet, cell, value },
            ),
            _ => None,
        }
    } else if str_eq(t, "excel_write_range") {
        match (read_str(m, "sheet"), read_str(m, "range"), read_table(m, "values")) {
            (Some(sheet), Some(range), Some(values)) => Some(
                EditAction::ExcelWriteRange { path, sheet, range, values },
            ),
            _ => None,
        }
    } else if str_eq(t, "excel_add_formula") {
        match (read_str(m, "sheet"), read_str(m, "cell"), read_str(m, "formula")) {
            (Some(sheet), Some(cell), Some(formula)) => Some(
                EditAction::ExcelAddFormula { path, sheet, cell, formula },
            ),
            _ => None,
        }
    } else if str_eq(t, "pptx_add_slide") {
        match (read_opt_str(m, "title"), read_opt_str(m, "body")) {
            (Some(title), Some(body)) => Some(EditAction::PptxAddSlide { path, title, body }),
            _ => None,
        }
    } else if str_eq(t, "pptx_edit_text") {
        match (read_i32(m, "slide_index"), read_i32(m, "shape_index"), read_str(m, "text")) {
            (Some(slide_index), Some(shape_index), Some(text)) => Some(
                EditAction::PptxEditText { path, slide_index, shape_index, text },
            ),
            _ => None,
        }
    } else {
        None
    }
}

// ---------------------------------------------------------------------------
// The outcome of an edit
// ---------------------------------------------------------------------------

/// What an edit reports: whether it succeeded, a message, and data it read.
#[derive(Debug, Clone)]
pub struct EditResult {
    pub ok: bool,
    pub message: String,
    pub data: Option<JsonValue>,
}

/// The mathematical value of an [`EditResult`].
pub struct ResultView {
    pub ok: bool,
    pub message: Seq<char>,
    pub data: Option<JsonView>,
}

impl View for EditResult {
    type V = ResultView;

    open spec fn view(&self) -> ResultView {
        ResultView { ok: self.ok, message: self.message@, data: opt_jview(self.data) }
    }
}

impl EditResult {
    pub fn ok(msg: String) -> (res: Self)
        ensures
            res.ok,
            res.message == msg,
            res.data is None,
    {
        EditResult { ok: true, message: msg, data: None }
    }

    pub fn ok_data(msg: String, data: JsonValue) -> (res: Self)
        ensures
            res.ok,
            res.message == msg,
            res.data == Some(data),
    {
        EditResult { ok: true, message: msg, data: Some(data) }
    }

    pub fn err(msg: String) -> (res: Self)
        ensures
            !res.ok,
            res.message == msg,
            res.data is None,
    {
        EditResult { ok: false, message: msg, data: None }
    }
}

} // verus!
