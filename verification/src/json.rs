//! The JSON documents that requests carry and responses bring back, held as
//! plain values. `serde_json` reads and writes the text.

use vstd::prelude::*;

use crate::text::{decimal_value, parse_decimal_u64, str_eq};

verus! {

#[verifier::external_type_specification]
#[verifier::external_body]
pub struct ExSerdeJsonValue(serde_json::Value);

/// A JSON document.
#[derive(Debug, PartialEq)]
pub enum Json {
    Null,
    Bool(bool),
    /// A number, held as its JSON text (as `serde_json` prints it).
    Number(String),
    Str(String),
    Array(Vec<Json>),
    /// Members in order.
    Object(Vec<(String, Json)>),
}

/// The value of a [`Json`] document.
pub enum JsonV {
    Null,
    Bool(bool),
    Number(Seq<char>),
    Str(Seq<char>),
    Array(Seq<JsonV>),
    Object(Seq<(Seq<char>, JsonV)>),
}

pub open spec fn json_view(j: Json) -> JsonV
    decreases j,
{
    match j {
        Json::Null => JsonV::Null,
        Json::Bool(b) => JsonV::Bool(b),
        Json::Number(n) => JsonV::Number(n@),
        Json::Str(s) => JsonV::Str(s@),
        Json::Array(v) => JsonV::Array(
            Seq::new(
                v@.len(),
                |i: int|
                    if 0 <= i < v@.len() {
                        json_view(v@[i])
                    } else {
                        JsonV::Null
                    },
            ),
        ),
        Json::Object(v) => JsonV::Object(
            Seq::new(
                v@.len(),
                |i: int|
                    if 0 <= i < v@.len() {
                        (v@[i].0@, json_view(v@[i].1))
                    } else {
                        (Seq::empty(), JsonV::Null)
                    },
            ),
        ),
    }
}

impl DeepView for Json {
    type V = JsonV;

    open spec fn deep_view(&self) -> JsonV {
        json_view(*self)
    }
}

/// The value of the first member named `key`.
pub open spec fn member_spec(m: Seq<(Seq<char>, JsonV)>, key: Seq<char>) -> Option<JsonV>
    decreases m.len(),
{
    if m.len() == 0 {
        None
    } else if m[0].0 == key {
        Some(m[0].1)
    } else {
        member_spec(m.drop_first(), key)
    }
}

/// Members that come before any member named `key` do not change what
/// `key` finds.
pub proof fn lemma_member_after(m1: Seq<(Seq<char>, JsonV)>, m2: Seq<(Seq<char>, JsonV)>, key: Seq<char>)
    requires
        forall|j: int| 0 <= j < m1.len() ==> #[trigger] m1[j].0 != key,
    ensures
        member_spec(m1 + m2, key) == member_spec(m2, key),
    decreases m1.len(),
{
    if m1.len() > 0 {
        assert((m1 + m2).drop_first() =~= m1.drop_first() + m2);
        assert(m1[0].0 != key);
        lemma_member_after(m1.drop_first(), m2, key);
    } else {
        assert(m1 + m2 =~= m2);
    }
}

/// `v[key]` when `v` is an object that has such a member (as
/// `serde_json::Value::get` with a `&str`).
pub open spec fn jget(v: JsonV, key: Seq<char>) -> Option<JsonV> {
    match v {
        JsonV::Object(m) => member_spec(m, key),
        _ => None,
    }
}

/// `v.get(key)` on an optional value.
pub open spec fn oget(v: Option<JsonV>, key: Seq<char>) -> Option<JsonV> {
    match v {
        Some(x) => jget(x, key),
        None => None,
    }
}

/// The string, when `v` is a string.
pub open spec fn jstr(v: Option<JsonV>) -> Option<Seq<char>> {
    match v {
        Some(JsonV::Str(s)) => Some(s),
        _ => None,
    }
}

/// The elements, when `v` is an array.
pub open spec fn jarr(v: Option<JsonV>) -> Option<Seq<JsonV>> {
    match v {
        Some(JsonV::Array(a)) => Some(a),
        _ => None,
    }
}

/// The value of a number that is a nonnegative integer within `u64`.
pub open spec fn ju64(v: Option<JsonV>) -> Option<nat> {
    match v {
        Some(JsonV::Number(t)) => match decimal_value(t) {
            Some(n) => if n <= u64::MAX {
                Some(n)
            } else {
                None
            },
            None => None,
        },
        _ => None,
    }
}

proof fn lemma_json_view_array(v: Vec<Json>, i: int)
    requires
        0 <= i < v@.len(),
    ensures
        json_view(Json::Array(v)) matches JsonV::Array(a) && a.len() == v@.len() && a[i]
            == json_view(v@[i]),
{
}

proof fn lemma_json_view_object(v: Vec<(String, Json)>, i: int)
    requires
        0 <= i < v@.len(),
    ensures
        json_view(Json::Object(v)) matches JsonV::Object(a) && a.len() == v@.len() && a[i]
            == (v@[i].0@, json_view(v@[i].1)),
{
}

/// The member `key` of `j` (`None` when `j` is not an object or has no such
/// member).
pub fn field<'a>(j: &'a Json, key: &str) -> (r: Option<&'a Json>)
    ensures
        r.deep_view() == jget(j.deep_view(), key@),
{
    match j {
        Json::Object(members) => {
            let ghost m = match j.deep_view() {
                JsonV::Object(m) => m,
                _ => Seq::empty(),
            };
            let mut i: usize = 0;
            proof {
                assert(m.skip(0) =~= m);
            }
            while i < members.len()
                invariant
                    *j == Json::Object(*members),
                    m == JsonV::Object(m)->0,
                    j.deep_view() == JsonV::Object(m),
                    m.len() == members@.len(),
                    0 <= i <= members@.len(),
                    member_spec(m, key@) == member_spec(m.skip(i as int), key@),
                decreases members@.len() - i,
            {
                proof {
                    lemma_json_view_object(*members, i as int);
                    assert(m.skip(i as int).drop_first() =~= m.skip(i + 1));
                }
                if str_eq(members[i].0.as_str(), key) {
                    return Some(&members[i].1);
                }
                i = i + 1;
            }
            None
        },
        _ => None,
    }
}

/// `get` on an optional value.
pub fn field_opt<'a>(j: Option<&'a Json>, key: &str) -> (r: Option<&'a Json>)
    ensures
        r.deep_view() == oget(j.deep_view(), key@),
{
    match j {
        Some(x) => field(x, key),
        None => None,
    }
}

pub fn as_str(j: Option<&Json>) -> (r: Option<&String>)
    ensures
        r.deep_view() == jstr(j.deep_view()),
{
    match j {
        Some(Json::Str(s)) => Some(s),
        _ => None,
    }
}

pub fn as_array(j: Option<&Json>) -> (r: Option<&Vec<Json>>)
    ensures
        r.deep_view() == jarr(j.deep_view()),
{
    match j {
        Some(Json::Array(a)) => {
            proof {
                assert(a.deep_view() =~= jarr(j.deep_view()).unwrap());
            }
            Some(a)
        },
        _ => None,
    }
}

pub fn as_u64(j: Option<&Json>) -> (r: Option<u64>)
    ensures
        match ju64(j.deep_view()) {
            Some(n) => r == Some(n as u64),
            None => r is None,
        },
{
    match j {
        Some(Json::Number(t)) => parse_decimal_u64(t.as_str()),
        _ => None,
    }
}

proof fn lemma_array_views_equal(a: Vec<Json>, b: Vec<Json>)
    requires
        a@.len() == b@.len(),
        forall|k: int| 0 <= k < a@.len() ==> json_view(#[trigger] a@[k]) == json_view(b@[k]),
    ensures
        json_view(Json::Array(a)) == json_view(Json::Array(b)),
{
    let x = json_view(Json::Array(a))->Array_0;
    let y = json_view(Json::Array(b))->Array_0;
    assert forall|k: int| 0 <= k < x.len() implies x[k] == y[k] by {
        lemma_json_view_array(a, k);
        lemma_json_view_array(b, k);
    }
    assert(x =~= y);
}

proof fn lemma_object_views_equal(a: Vec<(String, Json)>, b: Vec<(String, Json)>)
    requires
        a@.len() == b@.len(),
        forall|k: int|
            0 <= k < a@.len() ==> (#[trigger] a@[k]).0@ == b@[k].0@ && json_view(a@[k].1)
                == json_view(b@[k].1),
    ensures
        json_view(Json::Object(a)) == json_view(Json::Object(b)),
{
    let x = json_view(Json::Object(a))->Object_0;
    let y = json_view(Json::Object(b))->Object_0;
    assert forall|k: int| 0 <= k < x.len() implies x[k] == y[k] by {
        lemma_json_view_object(a, k);
        lemma_json_view_object(b, k);
    }
    assert(x =~= y);
}

/// The values of the members of an object.
pub open spec fn mview(v: Seq<(String, Json)>) -> Seq<(Seq<char>, JsonV)> {
    Seq::new(v.len(), |i: int| (v[i].0@, json_view(v[i].1)))
}

/// The values of the elements of an array.
pub open spec fn aview(v: Seq<Json>) -> Seq<JsonV> {
    Seq::new(v.len(), |i: int| json_view(v[i]))
}

/// A member `key: Str(s)` when `s` is present, nothing otherwise.
pub open spec fn opt_str_member(key: Seq<char>, s: Option<Seq<char>>) -> Seq<(Seq<char>, JsonV)> {
    match s {
        Some(x) => seq![(key, JsonV::Str(x))],
        None => Seq::empty(),
    }
}

/// A member `key: v` when `v` is present, nothing otherwise.
pub open spec fn opt_member(key: Seq<char>, v: Option<JsonV>) -> Seq<(Seq<char>, JsonV)> {
    match v {
        Some(x) => seq![(key, x)],
        None => Seq::empty(),
    }
}

/// An object made of the given members.
pub fn object(members: Vec<(String, Json)>) -> (r: Json)
    ensures
        r.deep_view() == JsonV::Object(mview(members@)),
{
    let r = Json::Object(members);
    proof {
        assert(json_view(r)->Object_0 =~= mview(members@));
    }
    r
}

/// An array made of the given elements.
pub fn array(items: Vec<Json>) -> (r: Json)
    ensures
        r.deep_view() == JsonV::Array(aview(items@)),
{
    let r = Json::Array(items);
    proof {
        assert(json_view(r)->Array_0 =~= aview(items@));
    }
    r
}

/// Adds the member `key: value`.
pub fn push_member(members: &mut Vec<(String, Json)>, key: &str, value: Json)
    ensures
        mview(final(members)@) == mview(old(members)@).push((key@, value.deep_view())),
{
    members.push((key.to_string(), value));
    proof {
        assert(mview(members@) =~= mview(old(members)@).push((key@, value.deep_view())));
    }
}

/// Adds the member `key: Str(s)` when `s` is present.
pub fn push_opt_str_member(members: &mut Vec<(String, Json)>, key: &str, s: &Option<String>)
    ensures
        mview(final(members)@) == mview(old(members)@) + opt_str_member(key@, s.deep_view()),
{
    match s {
        Some(x) => {
            push_member(members, key, Json::Str(x.clone()));
            proof {
                assert(mview(members@) =~= mview(old(members)@) + opt_str_member(key@, s.deep_view()));
            }
        },
        None => {
            proof {
                assert(mview(members@) =~= mview(old(members)@) + opt_str_member(key@, s.deep_view()));
            }
        },
    }
}

/// Adds the member `key: v` when `v` is present.
pub fn push_opt_member(members: &mut Vec<(String, Json)>, key: &str, v: Option<Json>)
    ensures
        mview(final(members)@) == mview(old(members)@) + opt_member(key@, v.deep_view()),
{
    match v {
        Some(x) => {
            push_member(members, key, x);
            proof {
                assert(mview(members@) =~= mview(old(members)@) + opt_member(key@, v.deep_view()));
            }
        },
        None => {
            proof {
                assert(mview(members@) =~= mview(old(members)@) + opt_member(key@, v.deep_view()));
            }
        },
    }
}

/// Adds an element.
pub fn push_item(items: &mut Vec<Json>, value: Json)
    ensures
        aview(final(items)@) == aview(old(items)@).push(value.deep_view()),
{
    items.push(value);
    proof {
        assert(aview(items@) =~= aview(old(items)@).push(value.deep_view()));
    }
}

/// A copy of `j`.
pub fn clone_json(j: &Json) -> (r: Json)
    ensures
        r.deep_view() == j.deep_view(),
    decreases j,
{
    match j {
        Json::Null => Json::Null,
        Json::Bool(b) => Json::Bool(*b),
        Json::Number(t) => Json::Number(t.clone()),
        Json::Str(s) => Json::Str(s.clone()),
        Json::Array(a) => {
            let mut out: Vec<Json> = Vec::new();
            let mut i: usize = 0;
            while i < a.len()
                invariant
                    *j == Json::Array(*a),
                    0 <= i <= a@.len(),
                    out@.len() == i,
                    forall|k: int| 0 <= k < i ==> json_view(#[trigger] out@[k]) == json_view(a@[k]),
                decreases a@.len() - i,
            {
                proof {
                    assert(decreases_to!(*j => (*j)->Array_0));
                    assert(decreases_to!(*a => a@));
                    assert(decreases_to!(a@ => a@[i as int]));
                }
                let x = clone_json(&a[i]);
                out.push(x);
                i = i + 1;
            }
            proof {
                lemma_array_views_equal(out, *a);
            }
            Json::Array(out)
        },
        Json::Object(m) => {
            let mut out: Vec<(String, Json)> = Vec::new();
            let mut i: usize = 0;
            while i < m.len()
                invariant
                    *j == Json::Object(*m),
                    0 <= i <= m@.len(),
                    out@.len() == i,
                    forall|k: int| 0 <= k < i ==> (#[trigger] out@[k]).0@ == m@[k].0@ && json_view(out@[k].1) == json_view(m@[k].1),
                decreases m@.len() - i,
            {
                proof {
                    assert(decreases_to!(*j => (*j)->Object_0));
                    assert(decreases_to!(*m => m@));
                    assert(decreases_to!(m@ => m@[i as int]));
                    assert(decreases_to!(m@[i as int] => m@[i as int].1));
                }
                let x = clone_json(&m[i].1);
                out.push((m[i].0.clone(), x));
                i = i + 1;
            }
            proof {
                lemma_object_views_equal(out, *m);
            }
            Json::Object(out)
        },
    }
}

/// A string value.
pub fn jtext(s: &str) -> (r: Json)
    ensures
        r.deep_view() == JsonV::Str(s@),
{
    Json::Str(s.to_string())
}

/// What `serde_json` makes of a text: the document, or the message of its
/// error.
pub uninterp spec fn serde_json_read(text: Seq<char>) -> Result<JsonV, Seq<char>>;

/// The compact text that `serde_json` writes for a document, the document
/// taken as a `serde_json::Value`: object members sorted by name (a later
/// member replacing an earlier one of the same name), and a number whose text
/// `serde_json` does not read as a number written as `null`.
pub uninterp spec fn serde_json_write(v: JsonV) -> Seq<char>;

#[verifier::external_body]
fn value_to_json(v: serde_json::Value) -> Json {
    match v {
        serde_json::Value::Null => Json::Null,
        serde_json::Value::Bool(b) => Json::Bool(b),
        serde_json::Value::Number(n) => Json::Number(n.to_string()),
        serde_json::Value::String(s) => Json::Str(s),
        serde_json::Value::Array(a) => Json::Array(a.into_iter().map(value_to_json).collect()),
        serde_json::Value::Object(m) => Json::Object(
            m.into_iter().map(|(k, x)| (k, value_to_json(x))).collect(),
        ),
    }
}

/// The document as a `serde_json::Value`; a number whose text does not parse
/// as a `serde_json::Number` becomes `Value::Null`.
#[verifier::external_body]
fn json_to_value(j: &Json) -> serde_json::Value {
    match j {
        Json::Null => serde_json::Value::Null,
        Json::Bool(b) => serde_json::Value::Bool(*b),
        Json::Number(t) => t.parse().map(serde_json::Value::Number).unwrap_or(
            serde_json::Value::Null,
        ),
        Json::Str(s) => serde_json::Value::String(s.clone()),
        Json::Array(a) => serde_json::Value::Array(a.iter().map(json_to_value).collect()),
        Json::Object(m) => serde_json::Value::Object(
            m.iter().map(|(k, x)| (k.clone(), json_to_value(x))).collect(),
        ),
    }
}

/// Calls `serde_json::from_str::<serde_json::Value>` on `text`; the result
/// (the document, or the text of the error) is named `serde_json_read`.
#[verifier::external_body]
pub(crate) fn read_json(text: &str) -> (r: Result<Json, String>)
    ensures
        match r {
            Ok(j) => serde_json_read(text@) == Ok::<JsonV, Seq<char>>(j.deep_view()),
            Err(m) => serde_json_read(text@) == Err::<JsonV, Seq<char>>(m@),
        },
{
    serde_json::from_str::<serde_json::Value>(text).map(value_to_json).map_err(|e| e.to_string())
}

/// Calls `serde_json::Value`'s `Display` (compact JSON text) on the document
/// converted to a `Value` (see `serde_json_write` for what that conversion
/// keeps); the text is named `serde_json_write`.
#[verifier::external_body]
pub(crate) fn write_json(j: &Json) -> (r: String)
    ensures
        r@ == serde_json_write(j.deep_view()),
{
    json_to_value(j).to_string()
}

} // verus!
