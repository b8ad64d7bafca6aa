use gemma4_assistant::json::JsonValue;
use gemma4_assistant::office::editor::{action_step, finish_edit, unsupported_platform, OfficeAvailability, OfficeEditor};
use gemma4_assistant::office::excel;
use gemma4_assistant::office::powerpoint;
use gemma4_assistant::office::runner::{ps_escape, ps_failure_message, wrap_ps_script};
use gemma4_assistant::office::sandbox::{check_allowed, ResolvedPath};
use gemma4_assistant::office::types::{decode_action_exec, encode_action, EditAction, EditResult};
use gemma4_assistant::office::undo::{backup_name, pick_latest_backup};
use gemma4_assistant::office::word;
use gemma4_assistant::tools::schema::tool_system_prompt;

fn comps(xs: &[&str]) -> Vec<String> {
    xs.iter().map(|x| x.to_string()).collect()
}

#[test]
fn escapes_single_quotes() {
    assert_eq!(ps_escape("it's"), "it''s");
    assert_eq!(ps_escape("''"), "''''");
    assert_eq!(ps_escape("plain"), "plain");
}

#[test]
fn wraps_scripts_for_powershell() {
    let w = wrap_ps_script("Write-Output 1");
    assert!(w.starts_with("$ErrorActionPreference = 'Stop'\n[Console]::OutputEncoding = [System.Text.Encoding]::UTF8\n$OutputEncoding = [System.Text.Encoding]::UTF8\ntry {\nWrite-Output 1\n} catch {"));
    assert!(w.ends_with("    exit 1\n}\n"));
    assert_eq!(ps_failure_message(Some(1), " boom \n"), "powershell失敗(code=Some(1)): boom");
    assert_eq!(ps_failure_message(None, ""), "powershell失敗(code=None): ");
    assert_eq!(ps_failure_message(Some(-3), "x"), "powershell失敗(code=Some(-3)): x");
}

#[test]
fn word_scripts() {
    let s = word::open_script("C:\\a'b.docx");
    assert!(s.starts_with(word::WORD_HEADER));
    assert!(s.contains("$target = 'C:\\a''b.docx'\n$doc = $null\n"));
    let f = word::find_replace_script("p", "it's", "x", true);
    assert!(f.contains("$find.Text = 'it''s'\n$find.Replacement.Text = 'x'\n$find.MatchCase = $true\n"));
    let h = word::insert_heading_script("p", "T", 12);
    assert!(h.contains("Styles.Item('Heading 9')"));
    let a = word::append_paragraph_script("p", "body", Some("Quote"));
    assert!(a.contains("$rng.Text = 'body'\n$rng.Style = $wd.ActiveDocument.Styles.Item('Quote')\n$doc.Save()\n"));
    let a2 = word::append_paragraph_script("p", "body", None);
    assert!(a2.ends_with("$rng.Text = 'body'\n\n$doc.Save()\n"));
    assert!(word::save_as_script("p", "d.docx").ends_with("\n$doc.SaveAs2('d.docx')\n"));
    assert_eq!(word::insert_heading_message(0), "見出し(Heading 1)を挿入しました");
    assert_eq!(word::find_replace_message("a", "b"), "置換完了: 'a' → 'b'");
}

#[test]
fn excel_scripts() {
    let values = vec![comps(&["a", "b'"]), comps(&["c"])];
    let s = excel::write_range_script("p", "Sheet1", "A1:B2", &values);
    assert!(s.contains("$sh = $wb.Worksheets.Item('Sheet1')\n"));
    assert!(s.contains("\n$arr = New-Object 'object[,]' 2,2\n$arr[0,0] = 'a'\n$arr[0,1] = 'b'''\n$arr[1,0] = 'c'\n\n$sh.Range('A1:B2').Value2 = $arr\n$wb.Save()\n"));
    let c = excel::write_cell_script("p", "S", "B2", "v");
    assert!(c.ends_with("\n$sh.Range('B2').Value2 = 'v'\n$wb.Save()\n"));
    let f = excel::add_formula_script("p", "S", "C1", "=SUM(A1:A3)");
    assert!(f.ends_with("\n$sh.Range('C1').Formula = '=SUM(A1:A3)'\n$wb.Save()\n"));
    assert!(excel::read_range_script("p", "S", "A1").contains("$rng = $sh.Range('A1')"));
    assert_eq!(excel::write_range_message("S", "A1", 2, 3), "S!A1 に 2×3 書き込み完了");
}

#[test]
fn powerpoint_scripts() {
    let s = powerpoint::add_slide_script("p", Some("Title"), None);
    assert!(s.contains("if ('Title' -ne '') { $slide.Shapes.Title.TextFrame.TextRange.Text = 'Title' }\nif ('' -ne ''"));
    let e = powerpoint::edit_text_script("p", 2, -1, "t");
    assert!(e.contains("$slide = $pres.Slides.Item(2)\n$shape = $slide.Shapes.Item(-1)\n"));
    assert_eq!(powerpoint::edit_text_message(1, 2), "Slide#1 Shape#2 のテキストを更新");
}

#[test]
fn empty_table_is_refused_before_running() {
    let a = EditAction::ExcelWriteRange { path: "p".into(), sheet: "S".into(), range: "A1".into(), values: vec![] };
    match action_step(&a, "C:\\p.xlsx") {
        Err(r) => {
            assert!(!r.ok);
            assert_eq!(r.message, "valuesが空です");
        }
        Ok(_) => panic!("expected refusal"),
    }
    let b = EditAction::ExcelWriteRange { path: "p".into(), sheet: "S".into(), range: "A1".into(), values: vec![vec![]] };
    assert!(action_step(&b, "x").is_err());
}

#[test]
fn finishing_reports_success_failure_and_data() {
    let a = EditAction::ExcelReadRange { path: "p".into(), sheet: "S".into(), range: "A1:B1".into() };
    let r = finish_edit(&a, "p", Ok("[[1,\"x\"]]\r\n".to_string()));
    assert!(r.ok);
    assert_eq!(r.message, "S!A1:B1 を読みました");
    match r.data {
        Some(JsonValue::Array(rows)) => assert_eq!(rows.len(), 1),
        _ => panic!("expected array data"),
    }
    let r2 = finish_edit(&a, "p", Ok("not json".to_string()));
    assert!(matches!(r2.data, Some(JsonValue::Str(ref s)) if s == "not json"));
    let w = EditAction::WordOpen { path: "a".into() };
    let ok = finish_edit(&w, "C:\\a.docx", Ok(String::new()));
    assert_eq!(ok.message, "Word文書を開きました: C:\\a.docx");
    let bad = finish_edit(&w, "C:\\a.docx", Err("failed".into()));
    assert!(!bad.ok);
    assert_eq!(bad.message, "failed");
    assert_eq!(unsupported_platform().message, "Windows環境のみサポート");
}

#[test]
fn edit_result_constructors() {
    let r = EditResult::ok("m".into());
    assert!(r.ok && r.data.is_none());
    let e = EditResult::err("x".into());
    assert!(!e.ok);
    let d = EditResult::ok_data("m".into(), JsonValue::Bool(true));
    assert!(matches!(d.data, Some(JsonValue::Bool(true))));
}

#[test]
fn action_names_paths_and_mutations() {
    let a = EditAction::WordSaveAs { path: "x".into(), dest: "y".into() };
    assert_eq!(a.tool_name(), "word_save_as");
    assert_eq!(a.path(), "x");
    assert!(a.is_mutation());
    let r = EditAction::ExcelReadRange { path: "z".into(), sheet: "s".into(), range: "r".into() };
    assert!(!r.is_mutation());
    assert_eq!(r.tool_name(), "excel_read_range");
    assert!(!EditAction::WordOpen { path: "w".into() }.is_mutation());
    assert!(!EditAction::ExcelOpen { path: "w".into() }.is_mutation());
}

#[test]
fn sandbox_checks_the_whitelist() {
    let t = ResolvedPath { display: "C:\\docs\\a.docx".into(), canonical: comps(&["C:", "docs", "a.docx"]), file_name: Some("a.docx".into()) };
    assert_eq!(check_allowed(&t, &vec![]), Ok("C:\\docs\\a.docx".to_string()));
    assert_eq!(check_allowed(&t, &vec![comps(&["C:", "docs"])]), Ok("C:\\docs\\a.docx".to_string()));
    assert_eq!(
        check_allowed(&t, &vec![comps(&["C:", "doc"])]),
        Err("サンドボックス拒否: C:\\docs\\a.docx はホワイトリスト外です".to_string())
    );
    assert!(check_allowed(&t, &vec![comps(&["D:"]), comps(&["C:"])]).is_ok());
}

#[test]
fn backups_are_named_and_picked_by_time() {
    assert_eq!(backup_name("20240101-120000", Some("a.docx")), "20240101-120000-a.docx");
    assert_eq!(backup_name("20240101-120000", None), "20240101-120000-file");
    let names = comps(&["20240101-120000-report.docx", "20240301-090000-report.docx", "20240401-000000-other.docx", "20240201-000000-report.docx"]);
    assert_eq!(pick_latest_backup("report.docx", &names), Ok(1));
    assert_eq!(pick_latest_backup("none.docx", &names), Err("none.docx のバックアップが見つかりません".to_string()));
}

#[test]
fn backups_of_other_files_are_not_restored() {
    let names = comps(&["20240101-120000-report.docx", "20240102-120000-myreport.docx", "report.docx", "2024010a-120000-report.docx"]);
    assert_eq!(pick_latest_backup("report.docx", &names), Ok(0));
    assert_eq!(pick_latest_backup("eport.docx", &names), Err("eport.docx のバックアップが見つかりません".to_string()));
}

#[test]
fn editor_plans_and_undoes() {
    let mut ed = OfficeEditor::new(vec!["C:\\docs".into()], "tasks/edit_history".into());
    assert!(!ed.any_available());
    ed.available.excel = true;
    assert!(ed.any_available());
    let t = ResolvedPath { display: "C:\\docs\\a.docx".into(), canonical: comps(&["C:", "docs", "a.docx"]), file_name: Some("a.docx".into()) };
    let roots = vec![comps(&["C:", "docs"])];
    let plan = ed.plan(&EditAction::WordOpen { path: "a.docx".into() }, &t, &roots).ok().unwrap();
    assert_eq!(plan.path, "C:\\docs\\a.docx");
    assert!(!plan.backup);
    assert_eq!(plan.step.ok().unwrap(), word::open_script("C:\\docs\\a.docx"));
    let outside = ResolvedPath { display: "D:\\x.docx".into(), canonical: comps(&["D:", "x.docx"]), file_name: Some("x.docx".into()) };
    let refused = ed.plan(&EditAction::WordOpen { path: "x".into() }, &outside, &roots).err().unwrap();
    assert!(!refused.ok);
    let hist = comps(&["20240101-000000-a.docx", "20240102-000000-a.docx"]);
    assert_eq!(ed.undo(&t, &roots, Ok(hist)), Ok("20240102-000000-a.docx".to_string()));
    assert_eq!(ed.undo(&t, &roots, Err("履歴読み取り失敗: x".into())), Err("履歴読み取り失敗: x".to_string()));
    let nameless = ResolvedPath { display: "C:\\docs".into(), canonical: comps(&["C:", "docs"]), file_name: None };
    assert_eq!(ed.undo(&nameless, &roots, Ok(vec![])), Err("ファイル名が取得できません".to_string()));
}

#[test]
fn system_prompt_lists_available_tools() {
    assert_eq!(tool_system_prompt(&OfficeAvailability { word: false, excel: false, powerpoint: false }), "");
    let p = tool_system_prompt(&OfficeAvailability { word: true, excel: false, powerpoint: true });
    assert!(p.contains("word_open"));
    assert!(!p.contains("excel_open"));
    assert!(p.contains("pptx_add_slide"));
    assert!(p.contains("【Office編集ツール】"));
    assert!(p.contains("{\"tool\": \"<tool_name>\", \"args\": {...}}"));
}

#[test]
fn encoded_actions_read_back_and_carry_their_tool_name() {
    let actions = vec![
        EditAction::WordOpen { path: "a.docx".into() },
        EditAction::WordFindReplace { path: "a.docx".into(), find: "x".into(), replace: "y".into(), match_case: true },
        EditAction::WordAppendParagraph { path: "a.docx".into(), text: "t".into(), style: None },
        EditAction::WordInsertHeading { path: "a.docx".into(), text: "h".into(), level: 2 },
        EditAction::WordSaveAs { path: "a.docx".into(), dest: "b.docx".into() },
        EditAction::ExcelOpen { path: "b.xlsx".into() },
        EditAction::ExcelReadRange { path: "b.xlsx".into(), sheet: "S".into(), range: "A1:B2".into() },
        EditAction::ExcelWriteCell { path: "b.xlsx".into(), sheet: "S".into(), cell: "A1".into(), value: "1".into() },
        EditAction::ExcelWriteRange { path: "b.xlsx".into(), sheet: "S".into(), range: "A1".into(), values: vec![vec!["1".into(), "2".into()]] },
        EditAction::ExcelAddFormula { path: "b.xlsx".into(), sheet: "S".into(), cell: "C1".into(), formula: "=A1".into() },
        EditAction::PptxAddSlide { path: "c.pptx".into(), title: Some("T".into()), body: None },
        EditAction::PptxEditText { path: "c.pptx".into(), slide_index: 1, shape_index: -2, text: "x".into() },
    ];
    let mut names: Vec<&str> = Vec::new();
    for a in &actions {
        let encoded = encode_action(a);
        let members = match &encoded {
            JsonValue::Object(m) => m.clone(),
            _ => panic!("an action encodes as an object"),
        };
        assert_eq!(members[0].0, "tool");
        assert!(matches!(&members[0].1, JsonValue::Str(s) if s == a.tool_name()));
        let back = decode_action_exec(&members).expect("an encoded action decodes");
        assert_eq!(format!("{:?}", back), format!("{:?}", a));
        assert!(!names.contains(&a.tool_name()));
        names.push(a.tool_name());
    }
    assert_eq!(names.len(), 12);
}
