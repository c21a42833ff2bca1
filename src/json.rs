//! JSON values, as read by serde_json.
use vstd::prelude::*;

verus! {

/// A JSON value. Numbers hold serde_json's canonical text for them; object
/// members come in serde_json's order, by key, one member per key (where a
/// key is repeated, its last value).
#[derive(Debug, PartialEq)]
pub enum Json {
    Null,
    Bool(bool),
    Number(String),
    Str(String),
    Array(Vec<Json>),
    Object(Vec<(String, Json)>),
}

/// `serde_json::Value`, declared so that `json_from_value` can take one.
#[verifier::external_type_specification]
#[verifier::external_body]
pub struct ExValue(serde_json::Value);

/// Whether `s` is one syntactically valid JSON value, as serde_json judges it.
pub uninterp spec fn is_json(s: Seq<char>) -> bool;

/// The JSON value serde_json reads from `s`.
pub uninterp spec fn json_of(s: Seq<char>) -> Json;

/// Relies on `serde_json::from_str` into a `serde_json::Value`: `None` exactly
/// when the text is not one JSON value with nothing after it; otherwise the
/// value read, which depends on the text alone.
#[verifier::external_body]
pub(crate) fn parse_json(text: &str) -> (r: Option<Json>)
    ensures
        r is Some <==> is_json(text@),
        r matches Some(j) ==> j == json_of(text@),
{
    serde_json::from_str::<serde_json::Value>(text).ok().map(json_from_value)
}

/// Relies on the variants of `serde_json::Value` and the `Display` of
/// `serde_json::Number`: moves each node over, the number as its text.
#[verifier::external_body]
fn json_from_value(v: serde_json::Value) -> Json {
    match v {
        serde_json::Value::Null => Json::Null,
        serde_json::Value::Bool(b) => Json::Bool(b),
        serde_json::Value::Number(n) => Json::Number(n.to_string()),
        serde_json::Value::String(s) => Json::Str(s),
        serde_json::Value::Array(a) => Json::Array(a.into_iter().map(json_from_value).collect()),
        serde_json::Value::Object(m) => Json::Object(m.into_iter().map(|(k, x)| (k, json_from_value(x))).collect()),
    }
}

} // verus!
