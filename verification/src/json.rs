//! JSON documents, read with `serde_json`: the few things that this library
//! asks of one.

use vstd::prelude::*;
use vstd::string::*;
use crate::text::option_text;

verus! {

/// A JSON document of `serde_json`. What it holds is seen through `json_members`.
#[verifier::external_type_specification]
#[verifier::external_body]
pub struct ExJsonValue(serde_json::Value);

/// The error of `serde_json`.
#[verifier::external_type_specification]
#[verifier::external_body]
pub struct ExJsonError(serde_json::Error);

/// One member of a JSON object, as far as this library reads it.
#[derive(Debug)]
pub enum JsonField {
    /// A string.
    Text(String),
    /// `true` or `false`.
    Flag(bool),
    /// A number, with its value where it is a whole number from 0 to 2^64 - 1.
    Number(Option<u64>),
    /// Null, an array or an object.
    Other,
}

/// The mathematical value of a [`JsonField`].
pub enum JsonFieldView {
    Text(Seq<char>),
    Flag(bool),
    Number(Option<u64>),
    Other,
}

impl View for JsonField {
    type V = JsonFieldView;

    open spec fn view(&self) -> JsonFieldView {
        match self {
            JsonField::Text(text) => JsonFieldView::Text(text@),
            JsonField::Flag(flag) => JsonFieldView::Flag(*flag),
            JsonField::Number(value) => JsonFieldView::Number(*value),
            JsonField::Other => JsonFieldView::Other,
        }
    }
}

/// The members of a JSON document by their keys, where the document is an
/// object; no members where it is anything else.
pub uninterp spec fn json_members(document: serde_json::Value) -> Map<Seq<char>, JsonFieldView>;

/// The members of the JSON object that a text spells, or nothing where the
/// text is not a JSON document.
pub uninterp spec fn json_document(text: Seq<char>) -> Option<Map<Seq<char>, JsonFieldView>>;

/// The members of each element of the JSON array that a text spells, or
/// nothing where the text is not a JSON array.
pub uninterp spec fn json_array(text: Seq<char>) -> Option<Seq<Map<Seq<char>, JsonFieldView>>>;

/// The members of each document of a list.
pub open spec fn members_of_each(documents: Seq<serde_json::Value>) -> Seq<
    Map<Seq<char>, JsonFieldView>,
> {
    documents.map_values(|d: serde_json::Value| json_members(d))
}

/// Reads a JSON document. Calls `serde_json::from_str` for a `Value`, which
/// goes by the text alone: it gives the document that the text spells, or an
/// error where it spells none.
#[verifier::external_body]
pub(crate) fn parse_document(text: &str) -> (parsed: Result<serde_json::Value, serde_json::Error>)
    ensures
        match parsed {
            Ok(document) => json_document(text@) == Some(json_members(document)),
            Err(_) => json_document(text@) is None,
        },
{
    serde_json::from_str::<serde_json::Value>(text)
}

/// Reads a JSON array. Calls `serde_json::from_str` for a vector of `Value`,
/// which goes by the text alone: it gives the elements of the array that the
/// text spells, or an error where it spells none.
#[verifier::external_body]
pub(crate) fn parse_array(text: &str) -> (parsed: Result<Vec<serde_json::Value>, serde_json::Error>)
    ensures
        match parsed {
            Ok(documents) => json_array(text@) == Some(members_of_each(documents@)),
            Err(_) => json_array(text@) is None,
        },
{
    serde_json::from_str::<Vec<serde_json::Value>>(text)
}

/// The member `key` of a document. Calls `serde_json::Value::get` with a
/// string key, which finds the member of an object and nothing in any other
/// document, and tells the kinds of values apart; for a number it calls
/// `serde_json::Number::as_u64`.
#[verifier::external_body]
pub(crate) fn member(document: &serde_json::Value, key: &str) -> (field: Option<JsonField>)
    ensures
        match field {
            Some(f) => json_members(*document).contains_key(key@) && json_members(
                *document,
            )[key@] == f@,
            None => !json_members(*document).contains_key(key@),
        },
{
    document.get(key).map(
        |value|
            match value {
                serde_json::Value::String(text) => JsonField::Text(text.clone()),
                serde_json::Value::Bool(flag) => JsonField::Flag(*flag),
                serde_json::Value::Number(number) => JsonField::Number(number.as_u64()),
                _ => JsonField::Other,
            },
    )
}

/// What the error of `serde_json` says. Calls its `to_string`; nothing is
/// claimed of the text.
#[verifier::external_body]
pub(crate) fn error_text(error: &serde_json::Error) -> (text: String) {
    error.to_string()
}

/// The whole number that the member `key` holds.
pub open spec fn number_at(members: Map<Seq<char>, JsonFieldView>, key: Seq<char>) -> Option<u64> {
    if members.contains_key(key) {
        match members[key] {
            JsonFieldView::Number(value) => value,
            _ => None,
        }
    } else {
        None
    }
}

/// The text that the member `key` holds.
pub open spec fn text_at(members: Map<Seq<char>, JsonFieldView>, key: Seq<char>) -> Option<
    Seq<char>,
> {
    if members.contains_key(key) {
        match members[key] {
            JsonFieldView::Text(text) => Some(text),
            _ => None,
        }
    } else {
        None
    }
}

/// The truth value that the member `key` holds.
pub open spec fn flag_at(members: Map<Seq<char>, JsonFieldView>, key: Seq<char>) -> Option<bool> {
    if members.contains_key(key) {
        match members[key] {
            JsonFieldView::Flag(flag) => Some(flag),
            _ => None,
        }
    } else {
        None
    }
}

/// The whole number that the member `key` of a document holds.
pub(crate) fn number_of(document: &serde_json::Value, key: &str) -> (value: Option<u64>)
    ensures
        value == number_at(json_members(*document), key@),
{
    match member(document, key) {
        Some(JsonField::Number(value)) => value,
        _ => None,
    }
}

/// The text that the member `key` of a document holds.
pub(crate) fn text_of(document: &serde_json::Value, key: &str) -> (value: Option<String>)
    ensures
        option_text(value) == text_at(json_members(*document), key@),
{
    match member(document, key) {
        Some(JsonField::Text(text)) => Some(text),
        _ => None,
    }
}

/// The truth value that the member `key` of a document holds.
pub(crate) fn flag_of(document: &serde_json::Value, key: &str) -> (value: Option<bool>)
    ensures
        value == flag_at(json_members(*document), key@),
{
    match member(document, key) {
        Some(JsonField::Flag(flag)) => Some(flag),
        _ => None,
    }
}

} // verus!
