//! The boundary with serde_json. JSON values stay opaque here: the library
//! only carries them, and learns what it needs of them through the calls
//! below.
use vstd::prelude::*;

verus! {

#[verifier::external_type_specification]
#[verifier::external_body]
pub struct ExJsonValue(serde_json::Value);

#[verifier::external_type_specification]
#[verifier::external_body]
pub struct ExJsonError(serde_json::Error);

/// The JSON value that a text denotes, or `None` where it is no JSON.
pub uninterp spec fn json_parse(text: Seq<char>) -> Option<serde_json::Value>;

/// The compact JSON text of an array holding `values`, or `None` where
/// encoding fails.
pub uninterp spec fn json_text(values: Seq<serde_json::Value>) -> Option<Seq<char>>;

/// The member named `key` of a JSON object; `None` for a missing member or
/// a value that is no object.
pub uninterp spec fn json_field(v: serde_json::Value, key: Seq<char>) -> Option<serde_json::Value>;

/// The text of a JSON string; `None` for a value that is no string.
pub uninterp spec fn json_str(v: serde_json::Value) -> Option<Seq<char>>;

/// Relies on `serde_json::from_str::<serde_json::Value>`: it decodes the text
/// into the value that it denotes, and fails on text that is no JSON.
#[verifier::external_body]
pub(crate) fn parse_json(text: &str) -> (r: Result<serde_json::Value, serde_json::Error>)
    ensures
        match r {
            Ok(v) => json_parse(text@) == Some(v),
            Err(_) => json_parse(text@) is None,
        },
{
    serde_json::from_str::<serde_json::Value>(text)
}

/// Relies on `serde_json::to_string` on a vector of values: the compact JSON
/// array of those values.
#[verifier::external_body]
pub(crate) fn encode_array(values: &Vec<serde_json::Value>) -> (r: Result<String, serde_json::Error>)
    ensures
        match r {
            Ok(s) => json_text(values@) == Some(s@),
            Err(_) => json_text(values@) is None,
        },
{
    serde_json::to_string(values)
}

/// Relies on `serde_json::Value::get` with a `&str` index: the member of
/// that name of an object.
#[verifier::external_body]
pub(crate) fn member<'a>(v: &'a serde_json::Value, key: &str) -> (r: Option<&'a serde_json::Value>)
    ensures
        match r {
            Some(f) => json_field(*v, key@) == Some(*f),
            None => json_field(*v, key@) is None,
        },
{
    v.get(key)
}

/// Relies on `serde_json::Value::as_str`: the text of a string value.
#[verifier::external_body]
pub(crate) fn string_text(v: &serde_json::Value) -> (r: Option<&str>)
    ensures
        match r {
            Some(s) => json_str(*v) == Some(s@),
            None => json_str(*v) is None,
        },
{
    v.as_str()
}

/// Relies on the derived `Clone` of `serde_json::Value`: a deep copy, equal
/// to the value copied.
#[verifier::external_body]
pub(crate) fn copy_value(v: &serde_json::Value) -> (r: serde_json::Value)
    ensures
        r == *v,
{
    v.clone()
}

/// Relies on the `Display` of `serde_json::Error`: its description.
#[verifier::external_body]
pub(crate) fn error_text(e: &serde_json::Error) -> (r: String) {
    e.to_string()
}

} // verus!
