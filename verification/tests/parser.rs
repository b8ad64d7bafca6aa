use gemma4_assistant::office::types::EditAction;
use gemma4_assistant::tools::parser::{extract_tool_call, find_json_end, parse_tool_json, strip_tool_call};

#[test]
fn extracts_fenced_tool_block() {
    let text = "はいはい、やってあげるわよ\n```tool\n{\"tool\": \"word_open\", \"args\": {\"path\": \"C:\\\\docs\\\\a.docx\"}}\n```";
    match extract_tool_call(text) {
        Some(EditAction::WordOpen { path }) => assert_eq!(path, "C:\\docs\\a.docx"),
        _ => panic!("expected word_open"),
    }
}

#[test]
fn extracts_json_fence_with_defaults() {
    let text = "```json\n{\"tool\": \"word_find_replace\", \"args\": {\"path\": \"a.docx\", \"find\": \"x\", \"replace\": \"y\"}}\n```";
    match extract_tool_call(text) {
        Some(EditAction::WordFindReplace { path, find, replace, match_case }) => {
            assert_eq!(path, "a.docx");
            assert_eq!(find, "x");
            assert_eq!(replace, "y");
            assert!(!match_case);
        }
        _ => panic!("expected word_find_replace"),
    }
}

#[test]
fn extracts_tool_call_element() {
    let text = "<tool_call>{\"tool\": \"excel_read_range\", \"args\": {\"path\": \"b.xlsx\", \"sheet\": \"S\", \"range\": \"A1:B2\"}}</tool_call>";
    match extract_tool_call(text) {
        Some(EditAction::ExcelReadRange { path, sheet, range }) => {
            assert_eq!(path, "b.xlsx");
            assert_eq!(sheet, "S");
            assert_eq!(range, "A1:B2");
        }
        _ => panic!("expected excel_read_range"),
    }
}

#[test]
fn extracts_bare_json_object() {
    let text = "では {\"tool\": \"pptx_edit_text\", \"args\": {\"path\": \"p.pptx\", \"slide_index\": 2, \"shape_index\": -1, \"text\": \"a}b\"}} です";
    match extract_tool_call(text) {
        Some(EditAction::PptxEditText { path, slide_index, shape_index, text }) => {
            assert_eq!(path, "p.pptx");
            assert_eq!(slide_index, 2);
            assert_eq!(shape_index, -1);
            assert_eq!(text, "a}b");
        }
        _ => panic!("expected pptx_edit_text"),
    }
}

#[test]
fn rejects_calls_that_do_not_fit() {
    assert!(extract_tool_call("こんにちは").is_none());
    assert!(extract_tool_call("```tool\n{\"tool\": \"excel_open\"}\n```").is_none());
    assert!(extract_tool_call("```tool\n{\"tool\": \"excel_open\", \"args\": [1]}\n```").is_none());
    assert!(extract_tool_call("```tool\n{\"tool\": \"unknown\", \"args\": {\"path\": \"a\"}}\n```").is_none());
    assert!(extract_tool_call("```tool\n{\"tool\": \"word_insert_heading\", \"args\": {\"path\": \"a\", \"text\": \"t\", \"level\": 300}}\n```").is_none());
    assert!(extract_tool_call("```tool\nnot json\n```").is_none());
}

#[test]
fn later_forms_are_tried_when_earlier_ones_fail() {
    let text = "```tool\nbroken\n```\n<tool_call>{\"tool\": \"excel_open\", \"args\": {\"path\": \"c.xlsx\"}}</tool_call>";
    match extract_tool_call(text) {
        Some(EditAction::ExcelOpen { path }) => assert_eq!(path, "c.xlsx"),
        _ => panic!("expected excel_open"),
    }
}

#[test]
fn reads_heading_table_and_optional_fields() {
    match parse_tool_json("{\"tool\": \"word_insert_heading\", \"args\": {\"path\": \"a\", \"text\": \"t\", \"level\": 3}}") {
        Some(EditAction::WordInsertHeading { level, .. }) => assert_eq!(level, 3),
        _ => panic!("expected heading"),
    }
    match parse_tool_json("{\"tool\": \"excel_write_range\", \"args\": {\"path\": \"a\", \"sheet\": \"s\", \"range\": \"A1\", \"values\": [[\"1\", \"2\"], [\"3\"]]}}") {
        Some(EditAction::ExcelWriteRange { values, .. }) => {
            assert_eq!(values, vec![vec!["1".to_string(), "2".to_string()], vec!["3".to_string()]])
        }
        _ => panic!("expected write range"),
    }
    match parse_tool_json("{\"tool\": \"pptx_add_slide\", \"args\": {\"path\": \"a\", \"title\": null, \"body\": \"b\"}}") {
        Some(EditAction::PptxAddSlide { title, body, .. }) => {
            assert_eq!(title, None);
            assert_eq!(body, Some("b".to_string()));
        }
        _ => panic!("expected add slide"),
    }
    assert!(parse_tool_json("{\"tool\": \"excel_write_range\", \"args\": {\"path\": \"a\", \"sheet\": \"s\", \"range\": \"A1\", \"values\": [[1]]}}").is_none());
}

#[test]
fn the_tool_member_wins_over_args() {
    match parse_tool_json("{\"tool\": \"excel_open\", \"args\": {\"tool\": \"word_open\", \"path\": \"x\"}}") {
        Some(EditAction::ExcelOpen { path }) => assert_eq!(path, "x"),
        _ => panic!("expected excel_open"),
    }
}

#[test]
fn finds_the_end_of_a_json_object() {
    assert_eq!(find_json_end("{\"a\":\"}\"}xyz"), Some(8));
    assert_eq!(find_json_end("{\"あ\":1}"), Some(8));
    assert_eq!(find_json_end("{\"a\":{\"b\":\"\\\"}\"}}rest"), Some(16));
    assert_eq!(find_json_end("{\"a\":1"), None);
    assert_eq!(find_json_end("}"), None);
}

#[test]
fn strips_tool_calls_from_the_visible_text() {
    let text = "こんにちは\n```tool\n{\"tool\": \"word_open\"}\n```\nまたね";
    assert_eq!(strip_tool_call(text), "こんにちは\n\nまたね");
    assert_eq!(strip_tool_call("  <tool_call>x</tool_call> 本文 "), "本文");
    assert_eq!(strip_tool_call("plain"), "plain");
}
