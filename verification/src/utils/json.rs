//! JSON documents as plain values.

use vstd::prelude::*;

verus! {

/// A JSON document read by `serde_json`.
#[verifier::external_type_specification]
#[verifier::external_body]
pub struct ExJsonDocument(serde_json::Value);

/// A JSON value. A number is held as the text that stands for it.
#[derive(Debug)]
pub enum JsonValue {
    /// `null`.
    Null,
    /// `true` or `false`.
    Bool(bool),
    /// A number, as text.
    Number(String),
    /// A string.
    Text(String),
    /// An array.
    Array(Vec<JsonValue>),
    /// An object: its members, each with its key.
    Object(Vec<(String, JsonValue)>),
}

/// The document that `serde_json` reads from a text, if the text is JSON.
pub uninterp spec fn json_document(content: Seq<char>) -> Option<JsonValue>;

/// Moves a value of `serde_json` into a [`JsonValue`], variant by variant;
/// a number is given by its `Display`. Nothing is claimed of the result.
#[verifier::external_body]
fn convert_json(value: serde_json::Value) -> (converted: JsonValue) {
    match value {
        serde_json::Value::Null => JsonValue::Null,
        serde_json::Value::Bool(flag) => JsonValue::Bool(flag),
        serde_json::Value::Number(number) => JsonValue::Number(number.to_string()),
        serde_json::Value::String(text) => JsonValue::Text(text),
        serde_json::Value::Array(items) => JsonValue::Array(
            items.into_iter().map(convert_json).collect(),
        ),
        serde_json::Value::Object(members) => JsonValue::Object(
            members.into_iter().map(|(key, member)| (key, convert_json(member))).collect(),
        ),
    }
}

/// Calls `serde_json::from_str` for a `serde_json::Value`, which reads the
/// text as one JSON document and depends on nothing but the text. The
/// contract names the document and claims nothing else of it: the call fails
/// exactly where the text has no document.
#[verifier::external_body]
pub(crate) fn parse_json(content: &str) -> (parsed: Result<JsonValue, serde_json::Error>)
    ensures
        parsed is Ok <==> json_document(content@) is Some,
        parsed matches Ok(document) ==> json_document(content@) == Some(document),
{
    match serde_json::from_str::<serde_json::Value>(content) {
        Ok(value) => Ok(convert_json(value)),
        Err(error) => Err(error),
    }
}

} // verus!
