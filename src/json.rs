//! A plain model of JSON values, and the two calls into serde_json that the
//! wire codec makes: parsing text and quoting a string.
use vstd::prelude::*;
use vstd::string::StringExecFns;

verus! {

/// A JSON value, as the codec reads it. Numbers keep their text; an object
/// keeps its members in the order of the text.
#[derive(Debug)]
pub enum Json {
    Null,
    Bool(bool),
    Number(String),
    Str(String),
    Array(Vec<Json>),
    Object(Vec<(String, Json)>),
}

#[verifier::external_type_specification]
#[verifier::external_body]
pub struct ExJsonValue(serde_json::Value);

/// What serde_json makes of a text: `None` where the text is not JSON.
pub uninterp spec fn json_parse_of(text: Seq<char>) -> Option<Json>;

/// The JSON string literal that serde_json writes for a string, quotes and
/// escapes included.
pub uninterp spec fn json_quoted(s: Seq<char>) -> Seq<char>;

/// Relies on serde_json::from_str::<serde_json::Value>: the value that the
/// text holds, or `None` where it is not JSON. The outcome depends on the
/// text alone.
#[verifier::external_body]
pub(crate) fn parse_json(text: &str) -> (r: Option<Json>)
    ensures
        r == json_parse_of(text@),
{
    serde_json::from_str::<serde_json::Value>(text).ok().map(json_from_value)
}

/// Relies on the variants of serde_json::Value: turns one into a `Json`,
/// variant for variant (a number keeps the text serde_json prints for it).
#[verifier::external_body]
fn json_from_value(v: serde_json::Value) -> Json {
    match v {
        serde_json::Value::Null => Json::Null,
        serde_json::Value::Bool(b) => Json::Bool(b),
        serde_json::Value::Number(n) => Json::Number(n.to_string()),
        serde_json::Value::String(s) => Json::Str(s),
        serde_json::Value::Array(a) => Json::Array(a.into_iter().map(json_from_value).collect()),
        serde_json::Value::Object(m) => Json::Object(
            m.into_iter().map(|(k, v)| (k, json_from_value(v))).collect(),
        ),
    }
}

/// Relies on serde_json::to_string::<str>: the string as a JSON string
/// literal. Serialising a `str` into memory does not fail.
#[verifier::external_body]
pub(crate) fn quote_json(s: &str) -> (r: String)
    ensures
        r@ == json_quoted(s@),
{
    serde_json::to_string(s).unwrap_or_default()
}

/// The first member of an object, from index `i` on, whose key is `key`.
pub open spec fn member_from(members: Seq<(String, Json)>, key: Seq<char>, i: int) -> Option<Json>
    decreases members.len() - i,
{
    if i < 0 || i >= members.len() {
        None
    } else if members[i].0@ == key {
        Some(members[i].1)
    } else {
        member_from(members, key, i + 1)
    }
}

/// The value of the first member of an object whose key is `key`.
pub open spec fn member(members: Seq<(String, Json)>, key: Seq<char>) -> Option<Json> {
    member_from(members, key, 0)
}

/// Looks a key up among an object's members: the index of the first member
/// with that key.
pub fn find_member(members: &Vec<(String, Json)>, key: &String) -> (r: Option<usize>)
    ensures
        r is None <==> member(members@, key@) is None,
        r matches Some(i) ==> i < members@.len() && member(members@, key@) == Some(
            members@[i as int].1,
        ),
{
    let mut i: usize = 0;
    while i < members.len()
        invariant
            i <= members@.len(),
            member(members@, key@) == member_from(members@, key@, i as int),
        decreases members@.len() - i,
    {
        if members[i].0 == *key {
            return Some(i);
        }
        i = i + 1;
    }
    None
}

} // verus!
