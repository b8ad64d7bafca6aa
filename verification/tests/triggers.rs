use gemma4_assistant::json::JsonValue;
use gemma4_assistant::office::types::EditAction;
use gemma4_assistant::triggers::{evaluate, TriggerRule};

fn obj(members: Vec<(&str, JsonValue)>) -> JsonValue {
    JsonValue::Object(members.into_iter().map(|(k, v)| (k.to_string(), v)).collect())
}

fn s(x: &str) -> JsonValue {
    JsonValue::Str(x.to_string())
}

fn replace_rule() -> TriggerRule {
    TriggerRule {
        pattern: "「(.+?)」を(.+?)に置換".to_string(),
        tool: "word_find_replace".to_string(),
        args: obj(vec![
            ("path", s("C:\\docs\\report.docx")),
            ("find", s("{{1}}")),
            ("replace", s("{{2}}")),
        ]),
    }
}

#[test]
fn trigger_substitutes_capture_groups() {
    let rules = vec![replace_rule()];
    match evaluate("「りんご」をみかんに置換して", &rules) {
        Some(EditAction::WordFindReplace { path, find, replace, match_case }) => {
            assert_eq!(path, "C:\\docs\\report.docx");
            assert_eq!(find, "りんご");
            assert_eq!(replace, "みかん");
            assert!(!match_case);
        }
        _ => panic!("expected word_find_replace"),
    }
    assert!(evaluate("置換しない", &rules).is_none());
}

#[test]
fn trigger_without_args_does_not_fire() {
    let rules = vec![TriggerRule { pattern: "開いて".to_string(), tool: "excel_open".to_string(), args: JsonValue::Null }];
    assert!(evaluate("ブックを開いて", &rules).is_none());
}

#[test]
fn invalid_rule_is_skipped_for_the_next() {
    let rules = vec![
        TriggerRule { pattern: "(".to_string(), tool: "excel_open".to_string(), args: obj(vec![("path", s("x"))]) },
        TriggerRule {
            pattern: "ブック([a-z]+)".to_string(),
            tool: "excel_open".to_string(),
            args: obj(vec![("path", s("C:\\{{1}}.xlsx"))]),
        },
    ];
    match evaluate("ブックabcを開く", &rules) {
        Some(EditAction::ExcelOpen { path }) => assert_eq!(path, "C:\\abc.xlsx"),
        _ => panic!("expected excel_open"),
    }
}

#[test]
fn substitution_reaches_nested_values() {
    let rules = vec![TriggerRule {
        pattern: "(\\d+)行目に(.+)".to_string(),
        tool: "excel_write_range".to_string(),
        args: obj(vec![
            ("path", s("a.xlsx")),
            ("sheet", s("S")),
            ("range", s("A{{1}}")),
            ("values", JsonValue::Array(vec![JsonValue::Array(vec![s("{{2}}"), s("{{1}}{{1}}")])])),
        ]),
    }];
    match evaluate("3行目にこんにちは", &rules) {
        Some(EditAction::ExcelWriteRange { range, values, .. }) => {
            assert_eq!(range, "A3");
            assert_eq!(values, vec![vec!["こんにちは".to_string(), "33".to_string()]]);
        }
        _ => panic!("expected excel_write_range"),
    }
}

#[test]
fn first_matching_rule_wins() {
    let rules = vec![
        TriggerRule { pattern: "x".to_string(), tool: "word_open".to_string(), args: obj(vec![("path", s("first"))]) },
        TriggerRule { pattern: "x".to_string(), tool: "word_open".to_string(), args: obj(vec![("path", s("second"))]) },
    ];
    match evaluate("x", &rules) {
        Some(EditAction::WordOpen { path }) => assert_eq!(path, "first"),
        _ => panic!("expected word_open"),
    }
}
