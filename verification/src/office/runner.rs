use vstd::prelude::*;
use vstd::string::*;
use crate::text::{chars_of, replace_all, replace_exec, owned, trim, trim_string, signed_decimal, push_signed_decimal};

verus! {

/// `s` escaped for a PowerShell single-quoted string: each `'` doubled.
pub open spec fn ps_escaped(s: Seq<char>) -> Seq<char> {
    replace_all(s, seq!['\''], seq!['\'', '\''])
}

/// Escapes `s` for a PowerShell single-quoted string literal.
pub fn ps_escape(s: &str) -> (res: String)
    ensures
        res@ == ps_escaped(s@),
{
    let chars = chars_of(s);
    let mut from: Vec<char> = Vec::new();
    from.push('\'');
    assert(from@ =~= seq!['\'']);
    let mut to = String::new();
    crate::text::push_char(&mut to, '\'');
    crate::text::push_char(&mut to, '\'');
    assert(to@ =~= seq!['\'', '\'']);
    replace_exec(&chars, &from, to.as_str())
}

/// What the body of a single-quoted PowerShell string stands for: `''` is
/// one quote, any other character itself.
pub open spec fn ps_unquote(t: Seq<char>) -> Seq<char>
    decreases t.len(),
{
    if t.len() == 0 {
        t
    } else if t.len() >= 2 && t[0] == '\'' && t[1] == '\'' {
        seq!['\''] + ps_unquote(t.skip(2))
    } else {
        seq![t[0]] + ps_unquote(t.drop_first())
    }
}

/// Every quote in `t` is one of a pair: the text cannot end a single-quoted
/// string early.
pub open spec fn quotes_paired(t: Seq<char>) -> bool
    decreases t.len(),
{
    if t.len() == 0 {
        true
    } else if t[0] == '\'' {
        t.len() >= 2 && t[1] == '\'' && quotes_paired(t.skip(2))
    } else {
        quotes_paired(t.drop_first())
    }
}

/// Reading a quoted body back is replacing each `''` by `'`.
pub proof fn lemma_unquote_is_replace(t: Seq<char>)
    ensures
        ps_unquote(t) == replace_all(t, seq!['\'', '\''], seq!['\'']),
    decreases t.len(),
{
    let from = seq!['\'', '\''];
    if t.len() == 0 {
    } else if t.len() < 2 {
        assert(ps_unquote(t.drop_first()) == t.drop_first());
        assert(seq![t[0]] + t.drop_first() =~= t);
    } else if t[0] == '\'' && t[1] == '\'' {
        assert(t.subrange(0, 2) =~= from);
        lemma_unquote_is_replace(t.skip(2));
    } else {
        assert(t.subrange(0, 2) != from) by {
            if t.subrange(0, 2) == from {
                assert(t.subrange(0, 2)[0] == t[0]);
                assert(t.subrange(0, 2)[1] == t[1]);
            }
        }
        lemma_unquote_is_replace(t.drop_first());
    }
}

/// Doubling each quote and then turning each `''` back into `'` gives the
/// text back, and the doubled text holds its quotes only in pairs.
pub proof fn lemma_ps_escape_undone_by_replace(s: Seq<char>)
    ensures
        replace_all(ps_escaped(s), seq!['\'', '\''], seq!['\'']) == s,
        quotes_paired(ps_escaped(s)),
{
    lemma_ps_escape_roundtrip(s);
    lemma_unquote_is_replace(ps_escaped(s));
}

/// An escaped string stays inside its quotes, and reading it back gives the
/// text that was escaped.
pub proof fn lemma_ps_escape_roundtrip(s: Seq<char>)
    ensures
        quotes_paired(ps_escaped(s)),
        ps_unquote(ps_escaped(s)) == s,
    decreases s.len(),
{
    let q = seq!['\''];
    let qq = seq!['\'', '\''];
    if s.len() == 0 {
    } else if s.subrange(0, 1) == q {
        lemma_ps_escape_roundtrip(s.skip(1));
        let r = ps_escaped(s.skip(1));
        assert(ps_escaped(s) == qq + r);
        assert((qq + r).skip(2) =~= r);
        assert(seq!['\''] + s.skip(1) =~= s);
    } else {
        assert(s[0] != '\'') by {
            if s[0] == '\'' {
                assert(s.subrange(0, 1) =~= q);
            }
        }
        lemma_ps_escape_roundtrip(s.drop_first());
        let r = ps_escaped(s.drop_first());
        assert(ps_escaped(s) == seq![s[0]] + r);
        assert((seq![s[0]] + r).drop_first() =~= r);
        assert(seq![s[0]] + s.drop_first() =~= s);
    }
}

/// What the script is wrapped in before it runs: stop on errors, UTF-8
/// output, and a failure exit with the message of any exception.
pub const PS_PRELUDE: &'static str = "$ErrorActionPreference = 'Stop'\n[Console]::OutputEncoding = [System.Text.Encoding]::UTF8\n$OutputEncoding = [System.Text.Encoding]::UTF8\ntry {\n";

pub const PS_POSTLUDE: &'static str = "\n} catch {\n    Write-Error $_.Exception.Message\n    exit 1\n}\n";

/// The script as it is handed to PowerShell.
pub fn wrap_ps_script(script: &str) -> (res: String)
    ensures
        res@ == PS_PRELUDE@ + script@ + PS_POSTLUDE@,
{
    let mut res = owned(PS_PRELUDE);
    res.append(script);
    res.append(PS_POSTLUDE);
    res
}

/// The error that a failed PowerShell run reports: its exit code, as `Debug`
/// prints an `Option<i32>`, and its trimmed error output.
pub open spec fn ps_failure(code: Option<i32>, stderr: Seq<char>) -> Seq<char> {
    "powershell失敗(code="@ + match code {
        Some(c) => "Some("@ + signed_decimal(c as int) + ")"@,
        None => "None"@,
    } + "): "@ + trim(stderr)
}

pub fn ps_failure_message(code: Option<i32>, stderr: &str) -> (res: String)
    ensures
        res@ == ps_failure(code, stderr@),
{
    let mut res = owned("powershell失敗(code=");
    match code {
        Some(c) => {
            res.append("Some(");
            push_signed_decimal(&mut res, c as i64);
            res.append(")");
        },
        None => {
            res.append("None");
        },
    }
    res.append("): ");
    let t = trim_string(stderr);
    res.append(t.as_str());
    res
}

} // verus!
