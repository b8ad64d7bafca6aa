use vstd::prelude::*;
use vstd::string::*;
use crate::text::{owned, views, str_eq};

verus! {

/// A target path as the sandbox sees it: the absolute path as written, and
/// the components of its canonical form (the absolute path itself where it
/// cannot be canonicalized).
#[derive(Debug, Clone)]
pub struct ResolvedPath {
    pub display: String,
    pub canonical: Vec<String>,
    pub file_name: Option<String>,
}

/// `base` is a leading run of the components of `path` (`Path::starts_with`).
pub open spec fn starts_with(path: Seq<Seq<char>>, base: Seq<Seq<char>>) -> bool {
    base.len() <= path.len() && path.take(base.len() as int) == base
}

pub open spec fn roots_view(roots: Seq<Vec<String>>) -> Seq<Seq<Seq<char>>> {
    roots.map_values(|r: Vec<String>| views(r@))
}

/// The target lies under one of the roots, or no roots are set.
pub open spec fn allowed(target: Seq<Seq<char>>, roots: Seq<Seq<Seq<char>>>) -> bool {
    roots.len() == 0 || exists|i: int| 0 <= i < roots.len() && starts_with(target, #[trigger] roots[i])
}

/// The refusal for a target outside the whitelist.
pub open spec fn refusal(display: Seq<char>) -> Seq<char> {
    "サンドボックス拒否: "@ + display + " はホワイトリスト外です"@
}

fn starts_with_exec(path: &Vec<String>, base: &Vec<String>) -> (r: bool)
    ensures
        r == starts_with(views(path@), views(base@)),
{
    if base.len() > path.len() {
        return false;
    }
    let mut k: usize = 0;
    while k < base.len()
        invariant
            k <= base.len() <= path.len(),
            forall|j: int| 0 <= j < k ==> path@[j]@ == base@[j]@,
        decreases base.len() - k,
    {
        if !str_eq(path[k].as_str(), base[k].as_str()) {
            assert(views(path@).take(base.len() as int)[k as int] != views(base@)[k as int]);
            return false;
        }
        k = k + 1;
    }
    assert(views(path@).take(base.len() as int) =~= views(base@));
    true
}

/// Decides whether an edit may touch `target`: where the canonical whitelist
/// `canonical_roots` is empty, any target may; otherwise only one under a
/// root. Gives the absolute path, or the refusal.
pub fn check_allowed(target: &ResolvedPath, canonical_roots: &Vec<Vec<String>>) -> (res: Result<
    String,
    String,
>)
    ensures
        match res {
            Ok(p) => allowed(views(target.canonical@), roots_view(canonical_roots@)) && p@
                == target.display@,
            Err(e) => !allowed(views(target.canonical@), roots_view(canonical_roots@)) && e@
                == refusal(target.display@),
        },
{
    let ghost rv = roots_view(canonical_roots@);
    if canonical_roots.len() == 0 {
        return Ok(target.display.clone());
    }
    let mut i: usize = 0;
    while i < canonical_roots.len()
        invariant
            i <= canonical_roots.len(),
            rv == roots_view(canonical_roots@),
            forall|j: int| 0 <= j < i ==> !starts_with(views(target.canonical@), #[trigger] rv[j]),
        decreases canonical_roots.len() - i,
    {
        assert(rv[i as int] == views(canonical_roots@[i as int]@));
        if starts_with_exec(&target.canonical, &canonical_roots[i]) {
            return Ok(target.display.clone());
        }
        i = i + 1;
    }
    let mut e = owned("サンドボックス拒否: ");
    e.append(target.display.as_str());
    e.append(" はホワイトリスト外です");
    Err(e)
}

} // verus!
