use vstd::prelude::*;
use vstd::string::*;
use crate::text::{owned, chars_of, views};

verus! {

/// The name under which a file is backed up: the time stamp, a dash, and the
/// file's name (`file` where it has none).
pub open spec fn spec_backup_name(stamp: Seq<char>, file_name: Option<Seq<char>>) -> Seq<char> {
    stamp + "-"@ + match file_name {
        Some(f) => f,
        None => "file"@,
    }
}

pub fn backup_name(stamp: &str, file_name: Option<&str>) -> (res: String)
    ensures
        res@ == spec_backup_name(
            stamp@,
            match file_name {
                Some(f) => Some(f@),
                None => None,
            },
        ),
{
    let mut s = owned(stamp);
    s.append("-");
    match file_name {
        Some(f) => s.append(f),
        None => s.append("file"),
    }
    s
}

/// `a` comes before `b` in the order of their characters' code points
/// (the order of their UTF-8 bytes).
pub open spec fn lex_lt(a: Seq<char>, b: Seq<char>) -> bool
    decreases a.len(),
{
    if a.len() == 0 {
        b.len() > 0
    } else if b.len() == 0 {
        false
    } else if a[0] != b[0] {
        (a[0] as u32) < (b[0] as u32)
    } else {
        lex_lt(a.drop_first(), b.drop_first())
    }
}

pub proof fn lemma_lex_irreflexive(a: Seq<char>)
    ensures
        !lex_lt(a, a),
    decreases a.len(),
{
    if a.len() > 0 {
        lemma_lex_irreflexive(a.drop_first());
    }
}

pub proof fn lemma_lex_trans(a: Seq<char>, b: Seq<char>, c: Seq<char>)
    requires
        lex_lt(a, b),
        lex_lt(b, c),
    ensures
        lex_lt(a, c),
    decreases a.len(),
{
    if a.len() > 0 && b.len() > 0 && c.len() > 0 && a[0] == b[0] && b[0] == c[0] {
        lemma_lex_trans(a.drop_first(), b.drop_first(), c.drop_first());
    }
}

fn lex_lt_exec(a: &Vec<char>, b: &Vec<char>) -> (r: bool)
    ensures
        r == lex_lt(a@, b@),
{
    let mut k: usize = 0;
    assert(a@.skip(0) =~= a@);
    assert(b@.skip(0) =~= b@);
    while k < a.len() && k < b.len() && a[k] == b[k]
        invariant
            k <= a.len(),
            k <= b.len(),
            lex_lt(a@, b@) == lex_lt(a@.skip(k as int), b@.skip(k as int)),
        decreases a.len() - k,
    {
        assert(a@.skip(k as int).drop_first() =~= a@.skip(k + 1));
        assert(b@.skip(k as int).drop_first() =~= b@.skip(k + 1));
        k = k + 1;
    }
    if k == a.len() {
        k < b.len()
    } else if k == b.len() {
        false
    } else {
        (a[k] as u32) < (b[k] as u32)
    }
}

pub open spec fn is_digit(c: char) -> bool {
    '0' <= c && c <= '9'
}

/// A time stamp as backups are named with: `YYYYMMDD-HHMMSS`.
pub open spec fn is_stamp(s: Seq<char>) -> bool {
    &&& s.len() == 15
    &&& s[8] == '-'
    &&& forall|k: int| 0 <= k < 15 && k != 8 ==> is_digit(#[trigger] s[k])
}

/// `b` is the name of a backup of the file `name`: a time stamp, a dash,
/// then exactly `name`.
pub open spec fn is_backup_name_of(b: Seq<char>, name: Seq<char>) -> bool {
    &&& b.len() == name.len() + 16
    &&& is_stamp(b.take(15))
    &&& b[15] == '-'
    &&& b.skip(16) == name
}

/// The names of backups of `name` are exactly those that `backup_name`
/// gives for `name` and a time stamp.
pub proof fn lemma_backup_names_of(stamp: Seq<char>, name: Seq<char>)
    ensures
        is_backup_name_of(spec_backup_name(stamp, Some(name)), name) <==> is_stamp(stamp),
{
    let b = spec_backup_name(stamp, Some(name));
    reveal_strlit("-");
    assert(b =~= stamp + seq!['-'] + name);
    if stamp.len() == 15 {
        assert(b.take(15) =~= stamp);
        assert(b.skip(16) =~= name);
    }
}

/// Backup `i` of the history is one of the file `name`.
pub open spec fn is_backup_of(names: Seq<Seq<char>>, name: Seq<char>, i: int) -> bool {
    0 <= i < names.len() && is_backup_name_of(names[i], name)
}

fn is_backup_name_exec(b: &Vec<char>, name: &Vec<char>) -> (r: bool)
    ensures
        r == is_backup_name_of(b@, name@),
{
    if b.len() < 16 || b.len() - 16 != name.len() {
        return false;
    }
    let mut k: usize = 0;
    while k < 15
        invariant
            k <= 15,
            b.len() == name.len() + 16,
            forall|j: int| 0 <= j < k ==> (if j == 8 { b@[j] == '-' } else { is_digit(b@[j]) }),
        decreases 15 - k,
    {
        let c = b[k];
        let ok = if k == 8 { c == '-' } else { '0' <= c && c <= '9' };
        if !ok {
            proof {
                assert(b@.take(15)[k as int] == c);
                if k != 8 {
                    assert(!is_digit(b@.take(15)[k as int]));
                }
            }
            return false;
        }
        k = k + 1;
    }
    assert(is_stamp(b@.take(15))) by {
        assert forall|j: int| 0 <= j < 15 && j != 8 implies is_digit(#[trigger] b@.take(15)[j]) by {
            assert(b@.take(15)[j] == b@[j]);
        }
    }
    if b[15] != '-' {
        return false;
    }
    let mut i: usize = 0;
    while i < name.len()
        invariant
            i <= name.len(),
            b.len() == name.len() + 16,
            forall|j: int| 0 <= j < i ==> b@[j + 16] == name@[j],
        decreases name.len() - i,
    {
        if b[i + 16] != name[i] {
            proof {
                assert(b@.skip(16)[i as int] == b@[i + 16]);
            }
            return false;
        }
        i = i + 1;
    }
    assert(b@.skip(16) =~= name@);
    true
}

/// The message when a file has no backup.
pub open spec fn no_backup(name: Seq<char>) -> Seq<char> {
    name + " のバックアップが見つかりません"@
}

/// Picks the latest backup of `name` among the file names in the history:
/// of the names made of a time stamp, a dash and `name`, the greatest in
/// code-point order, which is the most recent.
pub fn pick_latest_backup(name: &str, names: &Vec<String>) -> (res: Result<usize, String>)
    ensures
        match res {
            Ok(i) => is_backup_of(views(names@), name@, i as int) && forall|j: int|
                is_backup_of(views(names@), name@, j) ==> !lex_lt(
                    views(names@)[i as int],
                    views(names@)[j],
                ),
            Err(e) => e@ == no_backup(name@) && forall|j: int|
                !is_backup_of(views(names@), name@, j),
        },
{
    let ghost nv = views(names@);
    let suffix = chars_of(name);
    let mut best: Option<usize> = None;
    let mut best_chars: Vec<char> = Vec::new();
    let mut i: usize = 0;
    while i < names.len()
        invariant
            i <= names.len(),
            nv == views(names@),
            suffix@ == name@,
            match best {
                Some(b) => b < i && is_backup_of(nv, name@, b as int) && best_chars@ == nv[b as int]
                    && forall|j: int|
                    0 <= j < i && is_backup_of(nv, name@, j) ==> !lex_lt(nv[b as int], nv[j]),
                None => forall|j: int| 0 <= j < i ==> !is_backup_of(nv, name@, j),
            },
        decreases names.len() - i,
    {
        let c = chars_of(names[i].as_str());
        assert(c@ == nv[i as int]);
        if is_backup_name_exec(&c, &suffix) {
            match best {
                None => {
                    best = Some(i);
                    best_chars = c;
                    proof {
                        lemma_lex_irreflexive(nv[i as int]);
                    }
                },
                Some(b) => {
                    if lex_lt_exec(&best_chars, &c) {
                        proof {
                            assert forall|j: int|
                                0 <= j < i + 1 && is_backup_of(nv, name@, j) implies !lex_lt(
                                nv[i as int],
                                nv[j],
                            ) by {
                                if j < i {
                                    if lex_lt(nv[i as int], nv[j]) {
                                        lemma_lex_trans(nv[b as int], nv[i as int], nv[j]);
                                    }
                                }
                                lemma_lex_irreflexive(nv[i as int]);
                            }
                        }
                        best = Some(i);
                        best_chars = c;
                    } else {
                    }
                },
            }
        }
        i = i + 1;
    }
    match best {
        Some(b) => Ok(b),
        None => {
            let mut e = owned(name);
            e.append(" のバックアップが見つかりません");
            proof {
                assert forall|j: int| !is_backup_of(nv, name@, j) by {
                    if 0 <= j < names.len() {
                    }
                }
            }
            Err(e)
        },
    }
}

/// Of two different strings, one comes before the other.
pub proof fn lemma_lex_total(a: Seq<char>, b: Seq<char>)
    requires
        a != b,
    ensures
        lex_lt(a, b) || lex_lt(b, a),
    decreases a.len(),
{
    if a.len() > 0 && b.len() > 0 {
        if a[0] == b[0] {
            if a.drop_first() == b.drop_first() {
                assert(a =~= seq![a[0]] + a.drop_first());
                assert(b =~= seq![b[0]] + b.drop_first());
            }
            lemma_lex_total(a.drop_first(), b.drop_first());
        } else {
            let x = a[0];
            let y = b[0];
            if (x as u32) == (y as u32) {
                vstd::utf8::char_u32_cast(x, x as u32);
                vstd::utf8::char_u32_cast(y, y as u32);
            }
        }
    } else if a.len() == 0 && b.len() == 0 {
        assert(a =~= b);
    }
}

/// Restoring gives back the backup just made: where the history holds
/// `backup_name(stamp, name)` for a time stamp `stamp`, and no backup of
/// `name` sorts after it, that name is a backup of `name` (so a restore
/// finds one), and every backup that `pick_latest_backup` may choose (one
/// with no backup of `name` after it) has that very name.
pub proof fn lemma_restore_gives_latest_backup(
    names: Seq<Seq<char>>,
    name: Seq<char>,
    stamp: Seq<char>,
    made: int,
    picked: int,
)
    requires
        is_stamp(stamp),
        0 <= made < names.len(),
        names[made] == spec_backup_name(stamp, Some(name)),
        forall|j: int| is_backup_of(names, name, j) ==> !lex_lt(names[made], names[j]),
        is_backup_of(names, name, picked),
        forall|j: int| is_backup_of(names, name, j) ==> !lex_lt(names[picked], names[j]),
    ensures
        is_backup_of(names, name, made),
        names[picked] == names[made],
{
    lemma_backup_names_of(stamp, name);
    assert(is_backup_name_of(names[made], name));
    assert(is_backup_of(names, name, made));
    assert(!lex_lt(names[picked], names[made]));
    assert(!lex_lt(names[made], names[picked]));
    if names[picked] != names[made] {
        lemma_lex_total(names[picked], names[made]);
    }
}

/// Of two stamps of the same length, the later one gives the later backup
/// name: the most recent backup of a file sorts last.
pub proof fn lemma_newer_backup_sorts_later(
    older: Seq<char>,
    newer: Seq<char>,
    file_name: Option<Seq<char>>,
)
    requires
        older.len() == newer.len(),
        lex_lt(older, newer),
    ensures
        lex_lt(spec_backup_name(older, file_name), spec_backup_name(newer, file_name)),
    decreases older.len(),
{
    let tail = "-"@ + match file_name {
        Some(f) => f,
        None => "file"@,
    };
    assert(spec_backup_name(older, file_name) =~= older + tail);
    assert(spec_backup_name(newer, file_name) =~= newer + tail);
    lemma_lex_prefix(older, newer, tail, tail);
}

/// Extending two strings of the same length keeps their order.
pub proof fn lemma_lex_prefix(a: Seq<char>, b: Seq<char>, x: Seq<char>, y: Seq<char>)
    requires
        a.len() == b.len(),
        lex_lt(a, b),
    ensures
        lex_lt(a + x, b + y),
    decreases a.len(),
{
    assert((a + x)[0] == a[0]);
    assert((b + y)[0] == b[0]);
    if a[0] == b[0] {
        assert((a + x).drop_first() =~= a.drop_first() + x);
        assert((b + y).drop_first() =~= b.drop_first() + y);
        lemma_lex_prefix(a.drop_first(), b.drop_first(), x, y);
    }
}

} // verus!
