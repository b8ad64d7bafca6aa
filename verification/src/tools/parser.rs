use vstd::prelude::*;
use vstd::string::*;
use crate::json::{JsonValue, JsonView, jview, lookup_view, members_view, lemma_jview_object, lemma_lookup_view, parse_json, parsed_json, find_member, set_member, lemma_lookup_insert, lemma_member_index};
use crate::office::types::{EditAction, ActionView, decode_action, decode_action_exec, action_opt_view, members};
use crate::pattern::{regex_captures, regex_captures_of, regex_replace_all, regex_replaced, group, get_group};
use crate::text::{chars_of, owned, trim, trim_string, find_first, occurs_at, contains, string_of, byte_offset, byte_offset_exec};

verus! {

/// A fenced block labelled `tool`.
pub const TOOL_FENCE: &'static str = r"```tool\s*([\s\S]*?)```";

/// A fenced block labelled `json`.
pub const JSON_FENCE: &'static str = r"```json\s*([\s\S]*?)```";

/// A `<tool_call>` element.
pub const TOOL_TAG: &'static str = r"<tool_call>\s*([\s\S]*?)</tool_call>";

/// The same three forms, matched whole.
pub const TOOL_FENCE_WHOLE: &'static str = r"```tool\s*[\s\S]*?```";

pub const JSON_FENCE_WHOLE: &'static str = r"```json\s*[\s\S]*?```";

pub const TOOL_TAG_WHOLE: &'static str = r"<tool_call>[\s\S]*?</tool_call>";

/// How a bare tool call starts.
pub const RAW_TOOL_START: &'static str = r#"{"tool""#;

// ---------------------------------------------------------------------------
// The end of a JSON object
// ---------------------------------------------------------------------------

/// Scans `s` from character `i` on, with `depth` braces open, inside a string
/// or not, after a backslash in a string or not; gives the position of the
/// `}` that closes the outermost brace.
pub open spec fn scan_json_end(s: Seq<char>, i: int, depth: int, in_str: bool, esc: bool) -> Option<
    int,
>
    decreases s.len() - i,
{
    if i < 0 || i >= s.len() {
        None
    } else {
        let c = s[i];
        if in_str {
            if esc {
                scan_json_end(s, i + 1, depth, true, false)
            } else if c == '\\' {
                scan_json_end(s, i + 1, depth, true, true)
            } else if c == '"' {
                scan_json_end(s, i + 1, depth, false, esc)
            } else {
                scan_json_end(s, i + 1, depth, true, esc)
            }
        } else if c == '"' {
            scan_json_end(s, i + 1, depth, true, esc)
        } else if c == '{' {
            scan_json_end(s, i + 1, depth + 1, false, esc)
        } else if c == '}' {
            if depth - 1 == 0 {
                Some(i)
            } else {
                scan_json_end(s, i + 1, depth - 1, false, esc)
            }
        } else {
            scan_json_end(s, i + 1, depth, false, esc)
        }
    }
}

/// The position of the character that ends the JSON object at the start of
/// `s`: the first `}` outside strings at which the braces balance.
pub open spec fn json_end(s: Seq<char>) -> Option<int> {
    scan_json_end(s, 0, 0, false, false)
}

proof fn lemma_scan_bounds(s: Seq<char>, i: int, depth: int, in_str: bool, esc: bool)
    ensures
        scan_json_end(s, i, depth, in_str, esc) matches Some(e) ==> i <= e < s.len() && s[e]
            == '}',
    decreases s.len() - i,
{
    if 0 <= i < s.len() {
        let c = s[i];
        if in_str {
            if esc {
                lemma_scan_bounds(s, i + 1, depth, true, false);
            } else if c == '\\' {
                lemma_scan_bounds(s, i + 1, depth, true, true);
            } else if c == '"' {
                lemma_scan_bounds(s, i + 1, depth, false, esc);
            } else {
                lemma_scan_bounds(s, i + 1, depth, true, esc);
            }
        } else if c == '"' {
            lemma_scan_bounds(s, i + 1, depth, true, esc);
        } else if c == '{' {
            lemma_scan_bounds(s, i + 1, depth + 1, false, esc);
        } else if c == '}' {
            if depth - 1 != 0 {
                lemma_scan_bounds(s, i + 1, depth - 1, false, esc);
            }
        } else {
            lemma_scan_bounds(s, i + 1, depth, false, esc);
        }
    }
}

/// The character position in `s[from..]` that ends the JSON object starting
/// at `from`, counted from `from`.
fn json_end_chars(s: &Vec<char>, from: usize) -> (res: Option<usize>)
    requires
        from <= s.len(),
    ensures
        match res {
            Some(e) => json_end(s@.skip(from as int)) == Some(e as int),
            None => json_end(s@.skip(from as int)) is None,
        },
{
    let ghost t = s@.skip(from as int);
    let mut depth: i128 = 0;
    let mut in_str = false;
    let mut esc = false;
    let mut i: usize = from;
    while i < s.len()
        invariant
            from <= i <= s.len(),
            t == s@.skip(from as int),
            -((i - from) as int) <= depth <= (i - from) as int,
            json_end(t) == scan_json_end(t, i - from, depth as int, in_str, esc),
        decreases s.len() - i,
    {
        let c = s[i];
        assert(t[i - from] == c);
        if in_str {
            if esc {
                esc = false;
            } else if c == '\\' {
                esc = true;
            } else if c == '"' {
                in_str = false;
            }
        } else if c == '"' {
            in_str = true;
        } else if c == '{' {
            depth = depth + 1;
        } else if c == '}' {
            depth = depth - 1;
            if depth == 0 {
                return Some(i - from);
            }
        }
        i = i + 1;
    }
    None
}

/// The byte offset of the `}` that closes the JSON object at the start of `s`.
pub fn find_json_end(s: &str) -> (res: Option<usize>)
    ensures
        match res {
            Some(b) => json_end(s@) matches Some(e) && b == byte_offset(s@, e),
            None => json_end(s@) is None,
        },
{
    let chars = chars_of(s);
    assert(chars@.skip(0) =~= chars@);
    match json_end_chars(&chars, 0) {
        None => None,
        Some(e) => {
            proof {
                lemma_scan_bounds(chars@, 0, 0, false, false);
            }
            Some(byte_offset_exec(s, &chars, e))
        },
    }
}

// ---------------------------------------------------------------------------
// Reading a tool call
// ---------------------------------------------------------------------------

/// The members `args` with "tool" set to the string `t`.
pub open spec fn with_tool(args: Seq<(Seq<char>, JsonView)>, t: Seq<char>) -> spec_fn(
    Seq<char>,
) -> Option<JsonView> {
    |k: Seq<char>|
        if k == "tool"@ {
            Some(JsonView::Str(t))
        } else {
            lookup_view(args, k)
        }
}

/// The action that the JSON value `v` asks for: an object whose string
/// member "tool" names the action and whose object member "args", where
/// present, holds its fields.
pub open spec fn value_action(v: JsonView) -> Option<ActionView> {
    match v {
        JsonView::Object(m) => match lookup_view(m, "tool"@) {
            Some(JsonView::Str(t)) => match lookup_view(m, "args"@) {
                None => decode_action(with_tool(Seq::empty(), t)),
                Some(JsonView::Object(a)) => decode_action(with_tool(a, t)),
                Some(_) => None,
            },
            _ => None,
        },
        _ => None,
    }
}

/// The action that the JSON text `raw` asks for.
pub open spec fn tool_json_action(raw: Seq<char>) -> Option<ActionView> {
    match parsed_json(raw) {
        Some(v) => value_action(jview(v)),
        None => None,
    }
}

proof fn lemma_members_with_tool(args: Seq<(String, JsonValue)>, key: String, t: String)
    requires
        key@ == "tool"@,
    ensures
        members(crate::json::insert_member(args, key, JsonValue::Str(t))) == with_tool(
            members_view(args),
            t@,
        ),
{
    assert forall|k: Seq<char>|
        #[trigger] members(crate::json::insert_member(args, key, JsonValue::Str(t)))(k)
            == with_tool(members_view(args), t@)(k) by {
        lemma_lookup_insert(args, key, JsonValue::Str(t), k);
        lemma_lookup_view(args, k);
    }
    assert(members(crate::json::insert_member(args, key, JsonValue::Str(t))) =~= with_tool(
        members_view(args),
        t@,
    ));
}

/// Reads the action that the JSON value `v` asks for.
pub fn action_from_value(v: JsonValue) -> (res: Option<EditAction>)
    ensures
        action_opt_view(res) == value_action(jview(v)),
{
    let mut m = match v {
        JsonValue::Object(m) => m,
        _ => {
            return None;
        },
    };
    proof {
        lemma_jview_object(m);
        lemma_member_index(m@, "tool"@);
        lemma_member_index(m@, "args"@);
        lemma_lookup_view(m@, "tool"@);
        lemma_lookup_view(m@, "args"@);
    }
    let tool: String = match find_member(&m, "tool") {
        Some(i) => match &m[i].1 {
            JsonValue::Str(t) => t.clone(),
            _ => {
                return None;
            },
        },
        None => {
            return None;
        },
    };
    let mut args: Vec<(String, JsonValue)> = match find_member(&m, "args") {
        None => Vec::new(),
        Some(i) => {
            let (_, a) = m.remove(i);
            match a {
                JsonValue::Object(a) => {
                    proof {
                        lemma_jview_object(a);
                    }
                    a
                },
                _ => {
                    return None;
                },
            }
        },
    };
    let ghost a0 = args@;
    let key = owned("tool");
    proof {
        lemma_members_with_tool(a0, key, tool);
        if a0.len() == 0 {
            assert(members_view(a0) =~= Seq::<(Seq<char>, JsonView)>::empty());
        }
    }
    set_member(&mut args, key, JsonValue::Str(tool));
    decode_action_exec(&args)
}

/// Reads the action that the JSON text `raw` asks for.
pub fn parse_tool_json(raw: &str) -> (res: Option<EditAction>)
    ensures
        action_opt_view(res) == tool_json_action(raw@),
{
    match parse_json(raw) {
        Some(v) => action_from_value(v),
        None => None,
    }
}

/// The action asked for by the first capture group of `pattern` in `text`.
pub open spec fn block_action(pattern: Seq<char>, text: Seq<char>) -> Option<ActionView> {
    match regex_captures_of(pattern, text) {
        Some(g) => match group(g, 1) {
            Some(body) => tool_json_action(trim(body)),
            None => None,
        },
        None => None,
    }
}

/// The position of the first occurrence of `needle` in `text`.
pub open spec fn first_occurrence(text: Seq<char>, needle: Seq<char>) -> int {
    choose|i: int|
        occurs_at(text, needle, i) && forall|k: int| 0 <= k < i ==> !occurs_at(text, needle, k)
}

/// The action asked for by a bare JSON object starting at the first
/// occurrence of `{"tool"` in `text`.
pub open spec fn raw_action(text: Seq<char>) -> Option<ActionView> {
    if contains(text, RAW_TOOL_START@) {
        let rest = text.skip(first_occurrence(text, RAW_TOOL_START@));
        match json_end(rest) {
            Some(e) => tool_json_action(rest.take(e + 1)),
            None => None,
        }
    } else {
        None
    }
}

/// The tool call in a model's reply: the first of a fenced `tool` block, a
/// fenced `json` block and a `<tool_call>` element whose body asks for an
/// action, else a bare JSON object starting with `{"tool"`.
pub open spec fn spec_extract_tool_call(text: Seq<char>) -> Option<ActionView> {
    if block_action(TOOL_FENCE@, text) is Some {
        block_action(TOOL_FENCE@, text)
    } else if block_action(JSON_FENCE@, text) is Some {
        block_action(JSON_FENCE@, text)
    } else if block_action(TOOL_TAG@, text) is Some {
        block_action(TOOL_TAG@, text)
    } else {
        raw_action(text)
    }
}

fn block_action_exec(pattern: &str, text: &str) -> (res: Option<EditAction>)
    ensures
        action_opt_view(res) == block_action(pattern@, text@),
{
    match regex_captures(pattern, text) {
        Some(g) => match get_group(&g, 1) {
            Some(body) => {
                let t = trim_string(body.as_str());
                parse_tool_json(t.as_str())
            },
            None => None,
        },
        None => None,
    }
}

/// Finds the tool call in a model's reply.
pub fn extract_tool_call(text: &str) -> (res: Option<EditAction>)
    ensures
        action_opt_view(res) == spec_extract_tool_call(text@),
{
    let a = block_action_exec(TOOL_FENCE, text);
    if a.is_some() {
        return a;
    }
    let a = block_action_exec(JSON_FENCE, text);
    if a.is_some() {
        return a;
    }
    let a = block_action_exec(TOOL_TAG, text);
    if a.is_some() {
        return a;
    }
    let chars = chars_of(text);
    let needle = chars_of(RAW_TOOL_START);
    match find_first(&chars, &needle) {
        None => None,
        Some(start) => {
            proof {
                let s = first_occurrence(text@, RAW_TOOL_START@);
                assert(occurs_at(text@, RAW_TOOL_START@, start as int));
                if s < start {
                } else if s > start {
                }
                assert(s == start);
            }
            match json_end_chars(&chars, start) {
                None => None,
                Some(e) => {
                    proof {
                        lemma_scan_bounds(chars@.skip(start as int), 0, 0, false, false);
                    }
                    let raw = string_of(&chars, start, start + e + 1);
                    assert(raw@ =~= chars@.skip(start as int).take(e + 1));
                    parse_tool_json(raw.as_str())
                },
            }
        },
    }
}

/// The reply with every tool-call form replaced by nothing, in the order
/// fenced `tool` blocks, fenced `json` blocks, `<tool_call>` elements, and
/// then trimmed.
pub open spec fn spec_strip_tool_call(text: Seq<char>) -> Seq<char> {
    let a = match regex_replaced(TOOL_FENCE_WHOLE@, text, ""@) {
        Some(r) => r,
        None => text,
    };
    let b = match regex_replaced(JSON_FENCE_WHOLE@, a, ""@) {
        Some(r) => r,
        None => a,
    };
    let c = match regex_replaced(TOOL_TAG_WHOLE@, b, ""@) {
        Some(r) => r,
        None => b,
    };
    trim(c)
}

/// `text` with every match of `pattern` removed, or `text` itself where the
/// pattern does not compile.
pub fn replace_or_keep(pattern: &str, text: String) -> (res: String)
    ensures
        res@ == match regex_replaced(pattern@, text@, ""@) {
            Some(r) => r,
            None => text@,
        },
{
    match regex_replace_all(pattern, text.as_str(), "") {
        Some(r) => r,
        None => text,
    }
}

/// The text of a reply that the user sees: the reply without its tool calls.
pub fn strip_tool_call(text: &str) -> (res: String)
    ensures
        res@ == spec_strip_tool_call(text@),
{
    let out = owned(text);
    let out = replace_or_keep(TOOL_FENCE_WHOLE, out);
    let out = replace_or_keep(JSON_FENCE_WHOLE, out);
    let out = replace_or_keep(TOOL_TAG_WHOLE, out);
    trim_string(out.as_str())
}

} // verus!
