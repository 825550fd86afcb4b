//! A JSON value as the library holds it.
use vstd::prelude::*;
use crate::text::str_eq;

verus! {

/// A JSON value as serde_json reads it. A number keeps the text serde_json
/// writes for it; object members keep serde_json's order (by key).
pub enum JsonValue {
    Null,
    Bool(bool),
    Number(String),
    Text(String),
    Array(Vec<JsonValue>),
    Object(Vec<(String, JsonValue)>),
}

/// The content of a [`JsonValue`].
pub enum JsonV {
    Null,
    Bool(bool),
    Number(Seq<char>),
    Text(Seq<char>),
    Array(Seq<JsonV>),
    Object(Seq<(Seq<char>, JsonV)>),
}

/// The content of a JSON value.
pub open spec fn jv(j: JsonValue) -> JsonV
    decreases j,
{
    match j {
        JsonValue::Null => JsonV::Null,
        JsonValue::Bool(b) => JsonV::Bool(b),
        JsonValue::Number(t) => JsonV::Number(t@),
        JsonValue::Text(t) => JsonV::Text(t@),
        JsonValue::Array(v) => JsonV::Array(
            Seq::new(
                v@.len(),
                |i: int|
                    if 0 <= i < v@.len() {
                        proof {
                            assert(decreases_to!(v => v@));
                            assert(decreases_to!(v@ => v@[i]));
                        }
                        jv(v@[i])
                    } else {
                        JsonV::Null
                    },
            ),
        ),
        JsonValue::Object(v) => JsonV::Object(
            Seq::new(
                v@.len(),
                |i: int|
                    if 0 <= i < v@.len() {
                        proof {
                            assert(decreases_to!(v => v@));
                            assert(decreases_to!(v@ => v@[i]));
                            assert(decreases_to!(v@[i] => v@[i].1));
                        }
                        (v@[i].0@, jv(v@[i].1))
                    } else {
                        (Seq::empty(), JsonV::Null)
                    },
            ),
        ),
    }
}

#[verifier::external_type_specification]
#[verifier::external_body]
pub struct ExJsonValue(serde_json::Value);

/// What `serde_json::from_str::<serde_json::Value>` gives for a text: the
/// value, or the message of its error.
pub uninterp spec fn json_parse_result(input: Seq<char>) -> Result<JsonV, Seq<char>>;

/// A serde_json value as a [`JsonValue`], variant for variant; a number
/// keeps the text serde_json writes for it.
#[verifier::external_body]
fn json_from_value(v: serde_json::Value) -> JsonValue {
    match v {
        serde_json::Value::Null => JsonValue::Null,
        serde_json::Value::Bool(b) => JsonValue::Bool(b),
        serde_json::Value::Number(n) => JsonValue::Number(n.to_string()),
        serde_json::Value::String(s) => JsonValue::Text(s),
        serde_json::Value::Array(a) => JsonValue::Array(a.into_iter().map(json_from_value).collect()),
        serde_json::Value::Object(m) => JsonValue::Object(
            m.into_iter().map(|(k, x)| (k, json_from_value(x))).collect(),
        ),
    }
}

/// `serde_json::from_str::<serde_json::Value>`: the contract names its
/// result (`json_parse_result`) and claims nothing else of it; an error
/// comes back as its message (`Display`).
#[verifier::external_body]
pub(crate) fn parse_json(input: &str) -> (r: Result<JsonValue, String>)
    ensures
        match r {
            Ok(v) => json_parse_result(input@) == Ok::<JsonV, Seq<char>>(jv(v)),
            Err(m) => json_parse_result(input@) == Err::<JsonV, Seq<char>>(m@),
        },
{
    match serde_json::from_str::<serde_json::Value>(input) {
        Ok(v) => Ok(json_from_value(v)),
        Err(e) => Err(e.to_string()),
    }
}

/// The first member named `key` of a list of members.
pub open spec fn member_named(ms: Seq<(Seq<char>, JsonV)>, key: Seq<char>) -> Option<JsonV>
    decreases ms.len(),
{
    if ms.len() == 0 {
        None
    } else if ms[0].0 == key {
        Some(ms[0].1)
    } else {
        member_named(ms.drop_first(), key)
    }
}

/// The member `key` of an object; none for anything else.
pub open spec fn jget(v: JsonV, key: Seq<char>) -> Option<JsonV> {
    match v {
        JsonV::Object(ms) => member_named(ms, key),
        _ => None,
    }
}

/// The contents of a list of JSON values.
pub open spec fn jvs(v: Seq<JsonValue>) -> Seq<JsonV> {
    v.map_values(|j: JsonValue| jv(j))
}

/// The content of an optional JSON value.
pub open spec fn ojv(o: Option<&JsonValue>) -> Option<JsonV> {
    match o {
        Some(j) => Some(jv(*j)),
        None => None,
    }
}

/// The member `key` of an object.
pub fn get<'a>(v: &'a JsonValue, key: &str) -> (r: Option<&'a JsonValue>)
    ensures
        ojv(r) == jget(jv(*v), key@),
{
    match v {
        JsonValue::Object(ms) => {
            let ghost mv = match jv(*v) {
                JsonV::Object(m) => m,
                _ => Seq::empty(),
            };
            assert(jv(*v) == JsonV::Object(mv));
            assert(jget(jv(*v), key@) == member_named(mv, key@));
            let mut i: usize = 0;
            assert(mv.skip(0) =~= mv);
            while i < ms.len()
                invariant
                    i <= ms@.len(),
                    mv.len() == ms@.len(),
                    forall|j: int| 0 <= j < ms@.len() ==> (#[trigger] mv[j]) == (ms@[j].0@, jv(ms@[j].1)),
                    jget(jv(*v), key@) == member_named(mv, key@),
                    member_named(mv, key@) == member_named(mv.skip(i as int), key@),
                decreases ms@.len() - i,
            {
                assert(mv.skip(i as int)[0] == mv[i as int]);
                if str_eq(ms[i].0.as_str(), key) {
                    assert(mv.skip(i as int).len() > 0);
                    assert(mv.skip(i as int)[0].0 == key@);
                    assert(member_named(mv.skip(i as int), key@) == Some(mv[i as int].1));
                    return Some(&ms[i].1);
                }
                assert(mv.skip(i as int).drop_first() =~= mv.skip(i + 1));
                i = i + 1;
            }
            None
        },
        _ => None,
    }
}

} // verus!
