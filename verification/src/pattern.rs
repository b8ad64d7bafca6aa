use vstd::prelude::*;

verus! {

/// The capture groups that `regex::Regex::new(pattern)` followed by
/// `captures(haystack)` yields: `None` where the pattern does not compile or
/// does not match; otherwise the text of each group, `None` for a group that
/// took no part in the match. Group 0 is the whole match.
pub uninterp spec fn regex_captures_of(pattern: Seq<char>, haystack: Seq<char>) -> Option<
    Seq<Option<Seq<char>>>,
>;

/// The text that `regex::Regex::new(pattern)` followed by
/// `replace_all(haystack, rep)` yields, or `None` where the pattern does not
/// compile.
pub uninterp spec fn regex_replaced(pattern: Seq<char>, haystack: Seq<char>, rep: Seq<char>) -> Option<
    Seq<char>,
>;

pub open spec fn group_view(g: Option<String>) -> Option<Seq<char>> {
    match g {
        Some(s) => Some(s@),
        None => None,
    }
}

pub open spec fn groups_view(r: Option<Vec<Option<String>>>) -> Option<Seq<Option<Seq<char>>>> {
    match r {
        Some(v) => Some(v@.map_values(|g: Option<String>| group_view(g))),
        None => None,
    }
}

/// Calls `regex::Regex::new` and then `Regex::captures`. The contract claims
/// that the result is the one those functions give (`regex_captures_of`),
/// and, as the crate documents, that a match has a group 0 that is present.
/// What a pattern matches is not stated.
#[verifier::external_body]
pub(crate) fn regex_captures(pattern: &str, haystack: &str) -> (res: Option<Vec<Option<String>>>)
    ensures
        groups_view(res) == regex_captures_of(pattern@, haystack@),
        res matches Some(g) ==> g.len() >= 1 && g[0] is Some,
{
    let re = match ::regex::Regex::new(pattern) {
        Ok(re) => re,
        Err(_) => return None,
    };
    let caps = re.captures(haystack)?;
    Some((0..caps.len()).map(|i| caps.get(i).map(|m| m.as_str().to_string())).collect())
}

/// Calls `regex::Regex::new` and then `Regex::replace_all`. The contract
/// claims that the result is the one those functions give
/// (`regex_replaced`); what is replaced is not stated.
#[verifier::external_body]
pub(crate) fn regex_replace_all(pattern: &str, haystack: &str, rep: &str) -> (res: Option<String>)
    ensures
        group_view(res) == regex_replaced(pattern@, haystack@, rep@),
{
    match ::regex::Regex::new(pattern) {
        Ok(re) => Some(re.replace_all(haystack, rep).to_string()),
        Err(_) => None,
    }
}

/// Group `i` of the captures `g`, where it is present.
pub open spec fn group(g: Seq<Option<Seq<char>>>, i: int) -> Option<Seq<char>> {
    if 0 <= i < g.len() {
        g[i]
    } else {
        None
    }
}

/// Group `i` of a capture vector (`Captures::get`).
pub fn get_group(g: &Vec<Option<String>>, i: usize) -> (res: Option<&String>)
    ensures
        match res {
            Some(s) => group(g@.map_values(|x: Option<String>| group_view(x)), i as int) == Some(s@),
            None => group(g@.map_values(|x: Option<String>| group_view(x)), i as int) is None,
        },
{
    if i < g.len() {
        match &g[i] {
            Some(s) => Some(s),
            None => None,
        }
    } else {
        None
    }
}

} // verus!
