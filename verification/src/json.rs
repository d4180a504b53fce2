//! The library's contact with `serde_json`: the JSON value type, parsing a
//! text, building a one-member object, and reading members.

use vstd::prelude::*;

verus! {

/// `serde_json::Value`, carried through the library as an opaque value.
#[verifier::external_type_specification]
#[verifier::external_body]
pub struct ExJsonValue(serde_json::Value);

/// `Clone` of `serde_json::Value` (derived there): a deep copy, equal to
/// the value it was made from. Declared so that the library's message
/// types can derive `Clone`.
pub assume_specification[ <serde_json::Value as Clone>::clone ](v: &serde_json::Value) -> (r:
    serde_json::Value)
    ensures
        r == *v,
;

/// The object `{key: value}` (one member whose value is a JSON string), as
/// `serde_json` builds it.
pub uninterp spec fn json_string_object(key: Seq<char>, value: Seq<char>) -> serde_json::Value;

/// Builds the JSON object `{key: value}` with `serde_json::Map::new`,
/// `serde_json::Map::insert` and the `Value::String` / `Value::Object`
/// constructors. Claimed: the result is a function of the key and the value
/// alone (it is named `json_string_object`); nothing more is stated of it.
#[verifier::external_body]
pub(crate) fn string_object(key: &str, value: &str) -> (v: serde_json::Value)
    ensures
        v == json_string_object(key@, value@),
{
    let mut m = serde_json::Map::new();
    m.insert(key.to_string(), serde_json::Value::String(value.to_string()));
    serde_json::Value::Object(m)
}

/// What `serde_json::from_str::<serde_json::Value>` gives for a text:
/// `Some` document, or `None` where the text is not JSON.
pub uninterp spec fn json_parse(text: Seq<char>) -> Option<serde_json::Value>;

/// Parses a text with `serde_json::from_str::<serde_json::Value>`, keeping
/// the document and dropping the error. Claimed: the outcome is a function
/// of the text alone (it is named `json_parse`); which texts are JSON, and
/// what document they give, is not stated.
#[verifier::external_body]
pub(crate) fn parse_json(text: &str) -> (r: Option<serde_json::Value>)
    ensures
        r == json_parse(text@),
{
    serde_json::from_str::<serde_json::Value>(text).ok()
}

/// The member `key` of a JSON value where it is a JSON string
/// (`Value::get` followed by `Value::as_str`).
pub uninterp spec fn json_str_member(v: serde_json::Value, key: Seq<char>) -> Option<Seq<char>>;

/// The view of an optional string.
pub open spec fn opt_string_view(o: Option<String>) -> Option<Seq<char>> {
    match o {
        Some(s) => Some(s@),
        None => None,
    }
}

/// Reads the member `key` of a JSON value with `serde_json::Value::get` and
/// keeps it where it is a `Value::String` (what `Value::as_str` accepts). Claimed: the
/// result is a function of the value and the key alone (it is named
/// `json_str_member`).
#[verifier::external_body]
pub(crate) fn str_member(v: &serde_json::Value, key: &str) -> (r: Option<String>)
    ensures
        opt_string_view(r) == json_str_member(*v, key@),
{
    match v.get(key) {
        Some(serde_json::Value::String(s)) => Some(s.clone()),
        _ => None,
    }
}

/// The member `key` of a JSON value where it is a number that fits a `u64`
/// (`Value::get` followed by `Value::as_u64`).
pub uninterp spec fn json_u64_member(v: serde_json::Value, key: Seq<char>) -> Option<u64>;

/// Reads the member `key` of a JSON value with `serde_json::Value::get` and
/// keeps it where `serde_json::Value::as_u64` gives a number. Claimed: the
/// result is a function of the value and the key alone (it is named
/// `json_u64_member`).
#[verifier::external_body]
pub(crate) fn u64_member(v: &serde_json::Value, key: &str) -> (r: Option<u64>)
    ensures
        r == json_u64_member(*v, key@),
{
    match v.get(key) {
        Some(m) => m.as_u64(),
        None => None,
    }
}

} // verus!
