use vstd::prelude::*;
use vstd::string::*;
use crate::json::{JsonValue, JsonView, jview, lemma_jview_object, lemma_jview_array, members_view};
use crate::office::types::{EditAction, ActionView, action_opt_view};
use crate::pattern::{regex_captures, regex_captures_of, groups_view, group_view};
use crate::text::{chars_of, decimal, push_decimal, replace_all, replace_exec, owned, contains, occurs_at, lemma_replace_absent};
use crate::tools::parser::{action_from_value, value_action};

verus! {

/// A shortcut: when a message matches `pattern`, ask for the action `tool`
/// with the fields `args`, in which `{{1}}`, `{{2}}`, ... stand for the
/// pattern's capture groups.
#[derive(Debug, Clone)]
pub struct TriggerRule {
    pub pattern: String,
    pub tool: String,
    pub args: JsonValue,
}

/// The text `{{i}}` that stands for capture group `i`.
pub open spec fn placeholder(i: nat) -> Seq<char> {
    "{{"@ + decimal(i) + "}}"@
}

pub proof fn lemma_decimal_nonempty(n: nat)
    ensures
        decimal(n).len() >= 1,
    decreases n,
{
    if n >= 10 {
        lemma_decimal_nonempty(n / 10);
    }
}

/// `s` with the placeholders of groups `i`, `i + 1`, ... replaced in turn by
/// the groups' text; a group that took no part in the match is skipped.
pub open spec fn subst_text(s: Seq<char>, g: Seq<Option<Seq<char>>>, i: nat) -> Seq<char>
    decreases g.len() - i,
{
    if i >= g.len() {
        s
    } else {
        let next = match g[i as int] {
            Some(c) => replace_all(s, placeholder(i), c),
            None => s,
        };
        subst_text(next, g, i + 1)
    }
}

/// `v` with the placeholders in every string replaced by the capture groups `g`.
pub open spec fn subst_json(v: JsonView, g: Seq<Option<Seq<char>>>) -> JsonView
    decreases v,
{
    match v {
        JsonView::Str(s) => JsonView::Str(subst_text(s, g, 1)),
        JsonView::Array(a) => JsonView::Array(
            Seq::new(
                a.len(),
                |k: int|
                    if 0 <= k < a.len() {
                        subst_json(a[k], g)
                    } else {
                        JsonView::Null
                    },
            ),
        ),
        JsonView::Object(o) => JsonView::Object(
            Seq::new(
                o.len(),
                |k: int|
                    if 0 <= k < o.len() {
                        (o[k].0, subst_json(o[k].1, g))
                    } else {
                        (Seq::empty(), JsonView::Null)
                    },
            ),
        ),
        _ => v,
    }
}

/// A text without `{{` has no placeholder: substituting leaves it as it is.
pub proof fn lemma_subst_without_placeholders(s: Seq<char>, g: Seq<Option<Seq<char>>>, i: nat)
    requires
        !contains(s, "{{"@),
    ensures
        subst_text(s, g, i) == s,
    decreases g.len() - i,
{
    if i < g.len() {
        reveal_strlit("{{");
        assert(!contains(s, placeholder(i))) by {
            if contains(s, placeholder(i)) {
                let k = choose|k: int| occurs_at(s, placeholder(i), k);
                lemma_decimal_nonempty(i);
                assert(placeholder(i).subrange(0, 2) =~= "{{"@);
                assert(s.subrange(k, k + 2) =~= s.subrange(k, k + placeholder(i).len()).subrange(
                    0,
                    2,
                ));
                assert(occurs_at(s, "{{"@, k));
            }
        }
        match g[i as int] {
            Some(c) => {
                lemma_replace_absent(s, placeholder(i), c);
            },
            None => {},
        }
        lemma_subst_without_placeholders(s, g, i + 1);
    }
}

fn placeholder_exec(i: usize) -> (res: Vec<char>)
    ensures
        res@ == placeholder(i as nat),
        res.len() > 0,
{
    let mut s = String::new();
    s.append("{{");
    push_decimal(&mut s, i as u64);
    s.append("}}");
    proof {
        lemma_decimal_nonempty(i as nat);
    }
    chars_of(s.as_str())
}

fn subst_string(s: &String, g: &Vec<Option<String>>) -> (res: String)
    ensures
        res@ == subst_text(s@, groups_view(Some(*g))->0, 1),
{
    let ghost gv = groups_view(Some(*g))->0;
    let mut out = s.clone();
    let mut i: usize = 1;
    if g.len() == 0 {
        return out;
    }
    while i < g.len()
        invariant
            1 <= i <= g.len(),
            gv == groups_view(Some(*g))->0,
            gv.len() == g.len(),
            subst_text(out@, gv, i as nat) == subst_text(s@, gv, 1),
        decreases g.len() - i,
    {
        assert(gv[i as int] == group_view(g@[i as int]));
        match &g[i] {
            Some(m) => {
                let p = placeholder_exec(i);
                let cur = chars_of(out.as_str());
                out = replace_exec(&cur, &p, m.as_str());
            },
            None => {},
        }
        i = i + 1;
    }
    out
}

/// `v` with the placeholders in every string replaced by the capture groups `g`.
pub fn subst_value(v: &JsonValue, g: &Vec<Option<String>>) -> (res: JsonValue)
    ensures
        jview(res) == subst_json(jview(*v), groups_view(Some(*g))->0),
    decreases v,
{
    let ghost gv = groups_view(Some(*g))->0;
    match v {
        JsonValue::Null => JsonValue::Null,
        JsonValue::Bool(b) => JsonValue::Bool(*b),
        JsonValue::Int(n) => JsonValue::Int(*n),
        JsonValue::Float(s) => JsonValue::Float(s.clone()),
        JsonValue::Str(s) => JsonValue::Str(subst_string(s, g)),
        JsonValue::Array(a) => {
            proof {
                lemma_jview_array(*a);
            }
            let mut out: Vec<JsonValue> = Vec::new();
            let mut k: usize = 0;
            while k < a.len()
                invariant
                    *v == JsonValue::Array(*a),
                    gv == groups_view(Some(*g))->0,
                    k <= a.len(),
                    out.len() == k,
                    forall|j: int|
                        0 <= j < k ==> jview(#[trigger] out@[j]) == subst_json(jview(a@[j]), gv),
                decreases a.len() - k,
            {
                assert(decreases_to!(*v => (*v)->Array_0));
                assert(decreases_to!((*v)->Array_0 => ((*v)->Array_0)@));
                assert(decreases_to!(((*v)->Array_0)@ => ((*v)->Array_0)@[k as int]));
                out.push(subst_value(&a[k], g));
                k = k + 1;
            }
            proof {
                lemma_jview_array(out);
            }
            let res = JsonValue::Array(out);
            assert(jview(res)->Array_0 =~= subst_json(jview(*v), gv)->Array_0);
            res
        },
        JsonValue::Object(o) => {
            proof {
                lemma_jview_object(*o);
            }
            let mut out: Vec<(String, JsonValue)> = Vec::new();
            let mut k: usize = 0;
            while k < o.len()
                invariant
                    *v == JsonValue::Object(*o),
                    gv == groups_view(Some(*g))->0,
                    k <= o.len(),
                    out.len() == k,
                    forall|j: int|
                        0 <= j < k ==> (#[trigger] out@[j]).0@ == o@[j].0@ && jview(out@[j].1)
                            == subst_json(jview(o@[j].1), gv),
                decreases o.len() - k,
            {
                assert(decreases_to!(*v => (*v)->Object_0));
                assert(decreases_to!((*v)->Object_0 => ((*v)->Object_0)@));
                assert(decreases_to!(((*v)->Object_0)@ => ((*v)->Object_0)@[k as int]));
                assert(decreases_to!(((*v)->Object_0)@[k as int] => ((*v)->Object_0)@[k as int].1));
                let val = subst_value(&o[k].1, g);
                out.push((o[k].0.clone(), val));
                k = k + 1;
            }
            proof {
                lemma_jview_object(out);
            }
            let res = JsonValue::Object(out);
            assert(members_view(out@) =~= subst_json(jview(*v), gv)->Object_0);
            res
        },
    }
}

/// The action that `rule` asks for on `message`: where the pattern matches,
/// the action read from `{"tool": tool, "args": args}` with the placeholders
/// in `args` replaced by the capture groups.
pub open spec fn rule_action(rule: TriggerRule, message: Seq<char>) -> Option<ActionView> {
    match regex_captures_of(rule.pattern@, message) {
        None => None,
        Some(g) => value_action(
            JsonView::Object(
                seq![("tool"@, JsonView::Str(rule.tool@)), ("args"@, subst_json(jview(rule.args), g))],
            ),
        ),
    }
}

/// The action of the first rule, in order, that asks for one on `message`.
pub open spec fn spec_evaluate(message: Seq<char>, rules: Seq<TriggerRule>) -> Option<ActionView>
    decreases rules.len(),
{
    if rules.len() == 0 {
        None
    } else if rule_action(rules[0], message) is Some {
        rule_action(rules[0], message)
    } else {
        spec_evaluate(message, rules.drop_first())
    }
}

fn rule_action_exec(rule: &TriggerRule, message: &str) -> (res: Option<EditAction>)
    ensures
        action_opt_view(res) == rule_action(*rule, message@),
{
    match regex_captures(rule.pattern.as_str(), message) {
        None => None,
        Some(g) => {
            let args = subst_value(&rule.args, &g);
            let mut full: Vec<(String, JsonValue)> = Vec::new();
            full.push((owned("tool"), JsonValue::Str(rule.tool.clone())));
            full.push((owned("args"), args));
            proof {
                lemma_jview_object(full);
                assert(members_view(full@) =~= seq![
                    ("tool"@, JsonView::Str(rule.tool@)),
                    ("args"@, subst_json(jview(rule.args), groups_view(Some(g))->0)),
                ]);
            }
            action_from_value(JsonValue::Object(full))
        },
    }
}

/// Evaluates the trigger rules on a message: the action of the first rule
/// that asks for one.
pub fn evaluate(message: &str, rules: &Vec<TriggerRule>) -> (res: Option<EditAction>)
    ensures
        action_opt_view(res) == spec_evaluate(message@, rules@),
{
    let mut i: usize = 0;
    assert(rules@.skip(0) =~= rules@);
    while i < rules.len()
        invariant
            i <= rules.len(),
            spec_evaluate(message@, rules@) == spec_evaluate(message@, rules@.skip(i as int)),
        decreases rules.len() - i,
    {
        assert(rules@.skip(i as int)[0] == rules@[i as int]);
        assert(rules@.skip(i as int).drop_first() =~= rules@.skip(i + 1));
        let a = rule_action_exec(&rules[i], message);
        if a.is_some() {
            return a;
        }
        i = i + 1;
    }
    None
}

} // verus!
