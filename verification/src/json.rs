//! The boundary to `serde_json`.
//!
//! Everything that is believed rather than proved about JSON lives in this
//! file: two opaque types, three uninterpreted functions and six thin calls.
//! The rest of the crate reasons about [`Json`], a mathematical picture of a
//! document, and never looks inside a `serde_json::Value` itself.

use vstd::prelude::*;

verus! {

/// What a JSON document holds, as far as the codec reads it.
///
/// Strings, arrays and objects are modelled in full. How large a number is or
/// which way a boolean points is not: no rule of the protocol depends on
/// either, so `Number` carries nothing and `Bool` is never inspected.
pub enum Json {
    Null,
    Bool(bool),
    Number,
    Text(Seq<char>),
    Array(Seq<Json>),
    Object(Map<Seq<char>, Json>),
}

impl Json {
    /// The member stored under `key`, if this is an object that has one.
    pub open spec fn field(self, key: Seq<char>) -> Option<Json> {
        match self {
            Json::Object(members) => if members.contains_key(key) {
                Some(members[key])
            } else {
                None
            },
            _ => None,
        }
    }
}

/// `serde_json::Value`, a parsed document. It is carried around and handed
/// back to `serde_json`; nothing is known of its inside but what [`json_of`]
/// names.
#[verifier::external_type_specification]
#[verifier::external_body]
pub struct ExValue(serde_json::Value);

/// `serde_json::Error`, why a text did not parse. It is never looked into.
#[verifier::external_type_specification]
#[verifier::external_body]
pub struct ExError(serde_json::Error);

/// The document that a `serde_json::Value` holds.
pub uninterp spec fn json_of(value: serde_json::Value) -> Json;

/// The document that `serde_json` reads out of `text`, or `None` where it
/// rejects `text`.
pub uninterp spec fn parsed(text: Seq<char>) -> Option<Json>;

/// The JSON string literal that `serde_json` writes for `text`.
pub uninterp spec fn quoted(text: Seq<char>) -> Seq<char>;

/// Maps every element of an array to the document it stands for.
pub open spec fn json_of_each(values: Seq<serde_json::Value>) -> Seq<Json> {
    values.map_values(|value: serde_json::Value| json_of(value))
}

/// Calls `serde_json::from_str` at type `Value`.
///
/// Believed: parsing depends on the text alone. It either yields the value
/// whose document is `parsed(text)`, or fails exactly where `parsed(text)` is
/// `None`. Nothing is claimed about which texts parse.
#[verifier::external_body]
pub(crate) fn parse(text: &str) -> (outcome: Result<serde_json::Value, serde_json::Error>)
    ensures
        match outcome {
            Ok(value) => parsed(text@) == Some(json_of(value)),
            Err(_) => parsed(text@) is None,
        },
{
    serde_json::from_str::<serde_json::Value>(text)
}

/// Calls `serde_json::Value::get` with a string key.
///
/// Believed: the lookup finds a member only in an object, only under exactly
/// this key, and returns the value stored there.
#[verifier::external_body]
pub(crate) fn member<'a>(value: &'a serde_json::Value, key: &str) -> (found: Option<
    &'a serde_json::Value,
>)
    ensures
        match found {
            Some(inner) => json_of(*value).field(key@) == Some(json_of(*inner)),
            None => json_of(*value).field(key@) is None,
        },
{
    value.get(key)
}

/// Calls `serde_json::Value::as_str`.
///
/// Believed: the result is the content of a JSON string, and `None` for every
/// other kind of value.
#[verifier::external_body]
pub(crate) fn as_text<'a>(value: &'a serde_json::Value) -> (found: Option<&'a str>)
    ensures
        match found {
            Some(text) => json_of(*value) == Json::Text(text@),
            None => !(json_of(*value) is Text),
        },
{
    value.as_str()
}

/// Calls `serde_json::Value::as_array`.
///
/// Believed: the result is the vector behind a JSON array, element for
/// element and in order, and `None` for every other kind of value.
#[verifier::external_body]
pub(crate) fn as_items<'a>(value: &'a serde_json::Value) -> (found: Option<
    &'a Vec<serde_json::Value>,
>)
    ensures
        match found {
            Some(items) => json_of(*value) == Json::Array(json_of_each(items@)),
            None => !(json_of(*value) is Array),
        },
{
    value.as_array()
}

/// Calls `serde_json::Value::is_null`.
///
/// Believed: the answer is `true` for JSON `null` and for nothing else.
#[verifier::external_body]
pub(crate) fn is_null(value: &serde_json::Value) -> (answer: bool)
    ensures
        answer == (json_of(*value) is Null),
{
    value.is_null()
}

/// Calls `serde_json::to_string` on a string slice.
///
/// Believed: the result depends on the text alone and is the literal that
/// `quoted` names. Serializing a string slice into memory has no way to fail
/// (the two failures that the function documents are a `Serialize` impl that
/// gives up and a map with keys that are not strings), so the fallback is
/// never taken.
#[verifier::external_body]
pub(crate) fn quote(text: &str) -> (literal: String)
    ensures
        literal@ == quoted(text@),
{
    serde_json::to_string(text).unwrap_or_default()
}

} // verus!
