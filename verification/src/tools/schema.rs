use vstd::prelude::*;
use vstd::string::*;
use crate::office::editor::OfficeAvailability;
use crate::text::{owned, join, join_strings, views};

verus! {

/// How to call the Word tools.
pub const WORD_TOOLS: &'static str = r#"- word_open {"path": "..."}                      Word文書を開く/新規作成
- word_find_replace {"path","find","replace","match_case":false}      置換
- word_append_paragraph {"path","text","style":"..."}                 段落追加
- word_insert_heading {"path","text","level":1}                       見出し挿入
- word_save_as {"path","dest"}                                        名前を付けて保存"#;

/// How to call the Excel tools.
pub const EXCEL_TOOLS: &'static str = r#"- excel_open {"path"}                                                  ブックを開く
- excel_read_range {"path","sheet","range"}                            範囲読み取り
- excel_write_cell {"path","sheet","cell","value"}                     セル書き込み
- excel_write_range {"path","sheet","range","values":[["..",".."]]}    範囲書き込み
- excel_add_formula {"path","sheet","cell","formula":"=SUM(A1:A3)"}    数式挿入"#;

/// How to call the PowerPoint tools.
pub const PPTX_TOOLS: &'static str = r#"- pptx_add_slide {"path","title":"...","body":"..."}                   スライド追加
- pptx_edit_text {"path","slide_index":1,"shape_index":1,"text":"..."}テキスト編集"#;

/// The instructions before the list of tools.
pub const PROMPT_HEAD: &'static str = r#"

【Office編集ツール】
ユーザーがWord / Excel / PowerPointの編集を依頼したときのみ、以下のフォーマットで**1回につき1ツール**を呼び出せます。

```tool
{"tool": "<tool_name>", "args": {...}}
```

利用可能ツール:
"#;

/// The rules after the list of tools.
pub const PROMPT_TAIL: &'static str = r#"

ルール:
- 通常のおしゃべりでは絶対にtoolブロックを出さないこと。
- toolブロックを出すときは、その直前にキャラクターとして一言短く宣言（例：「はいはい、やってあげるわよ」）。
- pathは絶対パスで指定する。ユーザーが相対パスを言ったら「どのフォルダ？」と聞き返すこと。
- ツール実行結果はsystemメッセージとして戻される。その結果を元に最終返答すること。
"#;

/// The descriptions of the tools of the applications that are available.
pub open spec fn tool_list(avail: OfficeAvailability) -> Seq<Seq<char>> {
    (if avail.word { seq![WORD_TOOLS@] } else { Seq::empty() })
        + (if avail.excel { seq![EXCEL_TOOLS@] } else { Seq::empty() })
        + (if avail.powerpoint { seq![PPTX_TOOLS@] } else { Seq::empty() })
}

/// The part of the system prompt that teaches the model the Office tools:
/// empty where no Office application is available.
pub open spec fn spec_tool_system_prompt(avail: OfficeAvailability) -> Seq<char> {
    if !avail.word && !avail.excel && !avail.powerpoint {
        Seq::empty()
    } else {
        PROMPT_HEAD@ + join(tool_list(avail), "\n"@) + PROMPT_TAIL@
    }
}

pub fn tool_system_prompt(avail: &OfficeAvailability) -> (res: String)
    ensures
        res@ == spec_tool_system_prompt(*avail),
{
    if !avail.word && !avail.excel && !avail.powerpoint {
        return String::new();
    }
    let mut tools: Vec<String> = Vec::new();
    if avail.word {
        tools.push(owned(WORD_TOOLS));
    }
    if avail.excel {
        tools.push(owned(EXCEL_TOOLS));
    }
    if avail.powerpoint {
        tools.push(owned(PPTX_TOOLS));
    }
    assert(views(tools@) =~= tool_list(*avail));
    let mut res = owned(PROMPT_HEAD);
    let list = join_strings(&tools, "\n");
    res.append(list.as_str());
    res.append(PROMPT_TAIL);
    res
}

/// The prompt is empty exactly where no Office application is available.
pub proof fn lemma_prompt_empty_iff_unavailable(avail: OfficeAvailability)
    ensures
        (spec_tool_system_prompt(avail).len() == 0) <==> !(avail.word || avail.excel || avail.powerpoint),
{
    reveal_strlit(r#"

【Office編集ツール】
ユーザーがWord / Excel / PowerPointの編集を依頼したときのみ、以下のフォーマットで**1回につき1ツール**を呼び出せます。

```tool
{"tool": "<tool_name>", "args": {...}}
```

利用可能ツール:
"#);
    assert(PROMPT_HEAD@.len() > 0);
}
} // verus!
