//! The boundary to `serde_json`: the outside types that pass through the
//! library, and the calls that turn text into documents and back.
//!
//! Nothing in this file is proved. Each contract below is a claim about
//! `serde_json`, stated over the names declared here.

use crate::json::{canonical, Json, JsonView};
use vstd::prelude::*;

verus! {

#[verifier::external_type_specification]
#[verifier::external_body]
pub struct ExValue(serde_json::Value);

#[verifier::external_type_specification]
#[verifier::external_body]
pub struct ExNumber(serde_json::Number);

#[verifier::external_type_specification]
#[verifier::external_body]
pub struct ExError(serde_json::Error);

/// The document that a `serde_json::Value` holds: its variants one for one,
/// the members of an object in the order in which its map yields them.
pub uninterp spec fn value_model(value: serde_json::Value) -> JsonView;

/// What `serde_json::from_str` makes of a text when asked for a `Value`:
/// the document, or `None` where it reports an error.
pub uninterp spec fn json_parse(text: Seq<char>) -> Option<JsonView>;

/// What `serde_json::to_string` makes of a `Value` that holds `document`:
/// the text, or the message of the error it reports.
pub uninterp spec fn json_text(document: JsonView) -> Result<Seq<char>, Seq<char>>;

/// The message that a `serde_json::Error` displays.
pub uninterp spec fn error_text(error: serde_json::Error) -> Seq<char>;

/// Calls `serde_json::from_str` for a `Value`. Claims only that the outcome
/// is a function of the text, named [`json_parse`].
#[verifier::external_body]
pub(crate) fn parse_value(text: &str) -> (parsed: Result<serde_json::Value, serde_json::Error>)
    ensures
        match parsed {
            Ok(value) => json_parse(text@) == Some(value_model(value)),
            Err(_) => json_parse(text@) is None,
        },
{
    serde_json::from_str::<serde_json::Value>(text)
}

/// Calls `serde_json::to_string` on a `Value`. Claims only that the outcome
/// is a function of the document that the value holds, named [`json_text`].
#[verifier::external_body]
pub(crate) fn value_text(value: &serde_json::Value) -> (text: Result<String, serde_json::Error>)
    ensures
        match text {
            Ok(s) => json_text(value_model(*value)) == Ok::<Seq<char>, Seq<char>>(s@),
            Err(e) => json_text(value_model(*value)) == Err::<Seq<char>, Seq<char>>(
                error_text(e),
            ),
        },
{
    serde_json::to_string(value)
}

/// Calls `to_string` on a `serde_json::Error`, which displays it. Claims that
/// the message is a function of the error, named [`error_text`].
#[verifier::external_body]
pub(crate) fn error_message(error: &serde_json::Error) -> (message: String)
    ensures
        message@ == error_text(*error),
{
    error.to_string()
}

/// Copies a `serde_json::Value` into a [`Json`], variant by variant; the
/// members of an object come in the order of `serde_json::Map::iter`. This
/// copy is what [`value_model`] names.
#[verifier::external_body]
pub(crate) fn json_of(value: &serde_json::Value) -> (document: Json)
    ensures
        document@ == value_model(*value),
{
    match value {
        serde_json::Value::Null => Json::Null,
        serde_json::Value::Bool(b) => Json::Bool(*b),
        serde_json::Value::Number(n) => Json::Number(n.clone()),
        serde_json::Value::String(s) => Json::Text(s.clone()),
        serde_json::Value::Array(items) => Json::Array(items.iter().map(json_of).collect()),
        serde_json::Value::Object(map) => Json::Object(
            map.iter().map(|(k, v)| (k.clone(), json_of(v))).collect(),
        ),
    }
}

/// Copies a [`Json`] into a `serde_json::Value`, variant by variant; the
/// members of an object are collected into a `serde_json::Map` in their
/// order. Claims that the value holds the same document, for a document whose
/// keys strictly increase in every object: the map then keeps each member,
/// and yields them in the same order whether it sorts its keys or keeps the
/// order of insertion.
#[verifier::external_body]
pub(crate) fn value_of(document: &Json) -> (value: serde_json::Value)
    requires
        canonical(document@),
    ensures
        value_model(value) == document@,
{
    match document {
        Json::Null => serde_json::Value::Null,
        Json::Bool(b) => serde_json::Value::Bool(*b),
        Json::Number(n) => serde_json::Value::Number(n.clone()),
        Json::Text(s) => serde_json::Value::String(s.clone()),
        Json::Array(items) => serde_json::Value::Array(items.iter().map(value_of).collect()),
        Json::Object(members) => serde_json::Value::Object(
            members.iter().map(|(k, v)| (k.clone(), value_of(v))).collect(),
        ),
    }
}

} // verus!
