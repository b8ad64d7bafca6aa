use vstd::prelude::*;
use vstd::string::*;

verus! {

/// A JSON value as the library reads it.
///
/// Integers are kept exactly; a number that is not an integer is kept in
/// its decimal text form, since the library never computes with one.
/// An object keeps its members in order, with distinct keys.
#[derive(Debug)]
pub enum JsonValue {
    Null,
    Bool(bool),
    Int(i128),
    Float(String),
    Str(String),
    Array(Vec<JsonValue>),
    Object(Vec<(String, JsonValue)>),
}

/// The mathematical value of a [`JsonValue`].
pub enum JsonView {
    Null,
    Bool(bool),
    Int(int),
    Float(Seq<char>),
    Str(Seq<char>),
    Array(Seq<JsonView>),
    Object(Seq<(Seq<char>, JsonView)>),
}

/// The view of a JSON value: each string by its characters.
pub open spec fn jview(v: JsonValue) -> JsonView
    decreases v,
{
    match v {
        JsonValue::Null => JsonView::Null,
        JsonValue::Bool(b) => JsonView::Bool(b),
        JsonValue::Int(n) => JsonView::Int(n as int),
        JsonValue::Float(s) => JsonView::Float(s@),
        JsonValue::Str(s) => JsonView::Str(s@),
        JsonValue::Array(a) => JsonView::Array(
            Seq::new(
                a@.len(),
                |i: int|
                    if 0 <= i < a@.len() {
                        jview(a@[i])
                    } else {
                        JsonView::Null
                    },
            ),
        ),
        JsonValue::Object(o) => JsonView::Object(
            Seq::new(
                o@.len(),
                |i: int|
                    if 0 <= i < o@.len() {
                        (o@[i].0@, jview(o@[i].1))
                    } else {
                        (Seq::empty(), JsonView::Null)
                    },
            ),
        ),
    }
}

impl View for JsonValue {
    type V = JsonView;

    open spec fn view(&self) -> JsonView {
        jview(*self)
    }
}

pub open spec fn opt_jview(v: Option<JsonValue>) -> Option<JsonView> {
    match v {
        Some(x) => Some(jview(x)),
        None => None,
    }
}

/// The value of the first member named `key` in the view of an object.
pub open spec fn lookup_view(m: Seq<(Seq<char>, JsonView)>, key: Seq<char>) -> Option<JsonView>
    decreases m.len(),
{
    if m.len() == 0 {
        None
    } else if m[0].0 == key {
        Some(m[0].1)
    } else {
        lookup_view(m.drop_first(), key)
    }
}

/// The view of the members of an object.
pub open spec fn members_view(m: Seq<(String, JsonValue)>) -> Seq<(Seq<char>, JsonView)> {
    Seq::new(m.len(), |i: int| (m[i].0@, jview(m[i].1)))
}

pub proof fn lemma_jview_object(o: Vec<(String, JsonValue)>)
    ensures
        jview(JsonValue::Object(o)) == JsonView::Object(members_view(o@)),
{
    assert(jview(JsonValue::Object(o))->Object_0 =~= members_view(o@));
}

pub proof fn lemma_jview_array(a: Vec<JsonValue>)
    ensures
        jview(JsonValue::Array(a)) == JsonView::Array(Seq::new(a@.len(), |i: int| jview(a@[i]))),
{
    assert(jview(JsonValue::Array(a))->Array_0 =~= Seq::new(a@.len(), |i: int| jview(a@[i])));
}

pub proof fn lemma_lookup_view(m: Seq<(String, JsonValue)>, key: Seq<char>)
    ensures
        lookup_view(members_view(m), key) == opt_jview(lookup(m, key)),
    decreases m.len(),
{
    if m.len() > 0 {
        lemma_lookup_view(m.drop_first(), key);
        assert(members_view(m).drop_first() =~= members_view(m.drop_first()));
    }
}

#[verifier::external_type_specification]
#[verifier::external_body]
pub struct ExSerdeJsonValue(serde_json::Value);

/// The JSON value that `serde_json::from_str::<serde_json::Value>` parses from
/// `raw`, or `None` where it reports an error.
pub uninterp spec fn parsed_json(raw: Seq<char>) -> Option<JsonValue>;

#[verifier::external_type_specification]
#[verifier::external_body]
pub struct ExSerdeJsonNumber(serde_json::Number);

/// Carries a parsed `serde_json::Value` over into the library's own type,
/// member for member.
#[verifier::external_body]
fn from_serde(v: &serde_json::Value) -> JsonValue {
    match v {
        serde_json::Value::Null => JsonValue::Null,
        serde_json::Value::Bool(b) => JsonValue::Bool(*b),
        serde_json::Value::Number(n) => from_serde_number(n),
        serde_json::Value::String(s) => JsonValue::Str(s.clone()),
        serde_json::Value::Array(a) => JsonValue::Array(a.iter().map(from_serde).collect()),
        serde_json::Value::Object(m) => JsonValue::Object(m.iter().map(|(k, x)| (k.clone(), from_serde(x))).collect()),
    }
}

/// Carries a `serde_json::Number` over: an integer exactly, any other number
/// as its decimal text.
#[verifier::external_body]
fn from_serde_number(n: &serde_json::Number) -> JsonValue {
    match (n.as_i64(), n.as_u64()) {
        (Some(i), _) => JsonValue::Int(i as i128),
        (None, Some(u)) => JsonValue::Int(u as i128),
        (None, None) => JsonValue::Float(n.to_string()),
    }
}

/// Calls `serde_json::from_str::<serde_json::Value>`. The contract claims
/// only that the result is the one that function gives for `raw`
/// (`parsed_json`); what JSON text parses to what value is not stated.
#[verifier::external_body]
pub(crate) fn parse_json(raw: &str) -> (res: Option<JsonValue>)
    ensures
        res == parsed_json(raw@),
{
    match serde_json::from_str::<serde_json::Value>(raw) {
        Ok(v) => Some(from_serde(&v)),
        Err(_) => None,
    }
}

/// Reads a JSON text into the library's value, or `None` where it is not
/// JSON.
pub fn json_from_text(raw: &str) -> (res: Option<JsonValue>)
    ensures
        res == parsed_json(raw@),
{
    parse_json(raw)
}

/// The value of the first member of `m` named `key`.
pub open spec fn lookup(m: Seq<(String, JsonValue)>, key: Seq<char>) -> Option<JsonValue>
    decreases m.len(),
{
    if m.len() == 0 {
        None
    } else if m[0].0@ == key {
        Some(m[0].1)
    } else {
        lookup(m.drop_first(), key)
    }
}

/// The position of the first member of `m` named `key`.
pub open spec fn member_index(m: Seq<(String, JsonValue)>, key: Seq<char>) -> int
    decreases m.len(),
{
    if m.len() == 0 {
        -1
    } else if m[0].0@ == key {
        0
    } else {
        let r = member_index(m.drop_first(), key);
        if r < 0 {
            -1
        } else {
            r + 1
        }
    }
}

pub proof fn lemma_member_index(m: Seq<(String, JsonValue)>, key: Seq<char>)
    ensures
        -1 <= member_index(m, key) < m.len(),
        member_index(m, key) == -1 <==> lookup(m, key) is None,
        member_index(m, key) >= 0 ==> m[member_index(m, key)].0@ == key && lookup(m, key) == Some(
            m[member_index(m, key)].1,
        ),
        member_index(m, key) >= 0 ==> forall|k: int|
            0 <= k < member_index(m, key) ==> m[k].0@ != key,
        member_index(m, key) == -1 ==> forall|k: int| 0 <= k < m.len() ==> m[k].0@ != key,
    decreases m.len(),
{
    if m.len() > 0 && m[0].0@ != key {
        lemma_member_index(m.drop_first(), key);
        let r = member_index(m.drop_first(), key);
        assert forall|k: int| 0 <= k < (if r < 0 { m.len() as int } else { r + 1 }) implies m[k].0@
            != key by {
            if k > 0 {
                assert(m[k] == m.drop_first()[k - 1]);
            }
        }
    }
}

/// Finds the position of the first member named `key`.
pub fn find_member(m: &Vec<(String, JsonValue)>, key: &str) -> (res: Option<usize>)
    ensures
        match res {
            Some(i) => i as int == member_index(m@, key@),
            None => member_index(m@, key@) == -1,
        },
{
    proof {
        lemma_member_index(m@, key@);
    }
    let mut i: usize = 0;
    while i < m.len()
        invariant
            i <= m.len(),
            forall|k: int| 0 <= k < i ==> m@[k].0@ != key@,
            -1 <= member_index(m@, key@) < m@.len(),
            member_index(m@, key@) >= 0 ==> m@[member_index(m@, key@)].0@ == key@,
            member_index(m@, key@) >= 0 ==> forall|k: int|
                0 <= k < member_index(m@, key@) ==> m@[k].0@ != key@,
            member_index(m@, key@) == -1 ==> forall|k: int| 0 <= k < m.len() ==> m@[k].0@ != key@,
        decreases m.len() - i,
    {
        if crate::text::str_eq(m[i].0.as_str(), key) {
            return Some(i);
        }
        i = i + 1;
    }
    None
}

/// The members of `m` with `key` set to `val`: an existing member keeps its
/// place and takes the new value, otherwise a member is added at the end
/// (`serde_json::Map::insert`).
pub open spec fn insert_member(m: Seq<(String, JsonValue)>, key: String, val: JsonValue) -> Seq<
    (String, JsonValue),
> {
    let i = member_index(m, key@);
    if i >= 0 {
        m.update(i, (m[i].0, val))
    } else {
        m.push((key, val))
    }
}

pub proof fn lemma_lookup_insert(m: Seq<(String, JsonValue)>, key: String, val: JsonValue, k: Seq<char>)
    ensures
        lookup(insert_member(m, key, val), k) == if k == key@ {
            Some(val)
        } else {
            lookup(m, k)
        },
    decreases m.len(),
{
    lemma_member_index(m, key@);
    let i = member_index(m, key@);
    let r = insert_member(m, key, val);
    if m.len() == 0 {
        assert(r =~= seq![(key, val)]);
        assert(r.drop_first() =~= Seq::<(String, JsonValue)>::empty());
    } else if m[0].0@ == key@ {
        assert(i == 0);
        assert(r.drop_first() =~= m.drop_first());
        assert(r[0] == (m[0].0, val));
        if k == key@ {
            assert(lookup(r, k) == Some(val));
        } else {
            assert(lookup(r, k) == lookup(m.drop_first(), k));
        }
    } else {
        lemma_member_index(m.drop_first(), key@);
        lemma_lookup_insert(m.drop_first(), key, val, k);
        let j = member_index(m.drop_first(), key@);
        if j >= 0 {
            assert(i == j + 1);
        } else {
            assert(i == -1);
        }
        assert(r.drop_first() =~= insert_member(m.drop_first(), key, val));
        assert(r[0] == m[0]);
        if m[0].0@ == k {
            assert(lookup(r, k) == Some(m[0].1));
        } else {
            assert(lookup(r, k) == lookup(r.drop_first(), k));
        }
    }
}

/// Sets member `key` of `m` to `val`.
pub fn set_member(m: &mut Vec<(String, JsonValue)>, key: String, val: JsonValue)
    ensures
        final(m)@ == insert_member(old(m)@, key, val),
{
    proof {
        lemma_member_index(m@, key@);
    }
    match find_member(m, key.as_str()) {
        Some(i) => {
            let ghost old_m = m@;
            let entry = m.remove(i);
            m.insert(i, (entry.0, val));
            assert(m@ =~= old_m.update(i as int, (old_m[i as int].0, val)));
        },
        None => {
            m.push((key, val));
        },
    }
}

/// A copy of `v`, member for member.
pub fn copy_value(v: &JsonValue) -> (res: JsonValue)
    ensures
        jview(res) == jview(*v),
    decreases v,
{
    match v {
        JsonValue::Null => JsonValue::Null,
        JsonValue::Bool(b) => JsonValue::Bool(*b),
        JsonValue::Int(n) => JsonValue::Int(*n),
        JsonValue::Float(s) => JsonValue::Float(s.clone()),
        JsonValue::Str(s) => JsonValue::Str(s.clone()),
        JsonValue::Array(a) => {
            proof {
                lemma_jview_array(*a);
            }
            let mut out: Vec<JsonValue> = Vec::new();
            let mut k: usize = 0;
            while k < a.len()
                invariant
                    *v == JsonValue::Array(*a),
                    k <= a.len(),
                    out.len() == k,
                    forall|j: int| 0 <= j < k ==> jview(#[trigger] out@[j]) == jview(a@[j]),
                decreases a.len() - k,
            {
                assert(decreases_to!(*v => (*v)->Array_0));
                assert(decreases_to!((*v)->Array_0 => ((*v)->Array_0)@));
                assert(decreases_to!(((*v)->Array_0)@ => ((*v)->Array_0)@[k as int]));
                out.push(copy_value(&a[k]));
                k = k + 1;
            }
            proof {
                lemma_jview_array(out);
            }
            let res = JsonValue::Array(out);
            assert(jview(res)->Array_0 =~= jview(*v)->Array_0);
            res
        },
        JsonValue::Object(o) => {
            proof {
                lemma_jview_object(*o);
            }
            let mut out: Vec<(String, JsonValue)> = Vec::new();
            let mut k: usize = 0;
            while k < o.len()
                invariant
                    *v == JsonValue::Object(*o),
                    k <= o.len(),
                    out.len() == k,
                    forall|j: int|
                        0 <= j < k ==> (#[trigger] out@[j]).0@ == o@[j].0@ && jview(out@[j].1)
                            == jview(o@[j].1),
                decreases o.len() - k,
            {
                assert(decreases_to!(*v => (*v)->Object_0));
                assert(decreases_to!((*v)->Object_0 => ((*v)->Object_0)@));
                assert(decreases_to!(((*v)->Object_0)@ => ((*v)->Object_0)@[k as int]));
                assert(decreases_to!(((*v)->Object_0)@[k as int] => ((*v)->Object_0)@[k as int].1));
                let val = copy_value(&o[k].1);
                out.push((o[k].0.clone(), val));
                k = k + 1;
            }
            proof {
                lemma_jview_object(out);
            }
            let res = JsonValue::Object(out);
            assert(members_view(out@) =~= jview(*v)->Object_0);
            res
        },
    }
}

impl Clone for JsonValue {
    fn clone(&self) -> (res: Self)
        ensures
            jview(res) == jview(*self),
    {
        copy_value(self)
    }
}

} // verus!
