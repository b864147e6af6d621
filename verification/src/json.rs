//! The JSON that the gateway reads and writes as text.
//!
//! Parsing and escaping are `serde_json`'s work. This module names what it
//! answers, so that the functions built on it can say exactly what they
//! return.

use vstd::prelude::*;
use crate::text::text_of;

verus! {

/// Whether `text` is one well-formed JSON value.
pub uninterp spec fn is_json(text: Seq<char>) -> bool;

/// `text` as a JSON string literal, quoted and escaped.
pub uninterp spec fn json_string(text: Seq<char>) -> Seq<char>;

/// The member `name` of the JSON object `doc`, as JSON text; nothing where
/// `doc` is no JSON object or has no such member.
pub uninterp spec fn json_member(doc: Seq<char>, name: Seq<char>) -> Option<Seq<char>>;

/// The element at `index` of the JSON array `doc`, as JSON text; nothing
/// where `doc` is no JSON array or is too short.
pub uninterp spec fn json_element(doc: Seq<char>, index: usize) -> Option<Seq<char>>;

/// The text that the JSON string `doc` stands for; nothing where `doc` is
/// no JSON string.
pub uninterp spec fn json_text(doc: Seq<char>) -> Option<Seq<char>>;

/// `serde_json::from_str`, read as a `serde_json::Value`: whether `text`
/// parses as one JSON value.
#[verifier::external_body]
pub(crate) fn parses_as_json(text: &str) -> (answer: bool)
    ensures
        answer == is_json(text@),
{
    serde_json::from_str::<serde_json::Value>(text).is_ok()
}

/// The display form of `serde_json::Value::String`: `text` as a JSON
/// string literal.
#[verifier::external_body]
pub(crate) fn quote(text: &str) -> (literal: String)
    ensures
        literal@ == json_string(text@),
{
    serde_json::Value::String(text.to_owned()).to_string()
}

/// `serde_json::Value::get` with a name, on the value that `doc` parses
/// to: the member of that name, written out again.
#[verifier::external_body]
pub(crate) fn member(doc: &str, name: &str) -> (found: Option<String>)
    ensures
        text_of(found) == json_member(doc@, name@),
{
    serde_json::from_str::<serde_json::Value>(doc).ok()?.get(name).map(|value| value.to_string())
}

/// `serde_json::Value::get` with a position, on the value that `doc`
/// parses to: the element at that position, written out again.
#[verifier::external_body]
pub(crate) fn element(doc: &str, index: usize) -> (found: Option<String>)
    ensures
        text_of(found) == json_element(doc@, index),
{
    serde_json::from_str::<serde_json::Value>(doc).ok()?.get(index).map(|value| value.to_string())
}

/// `serde_json::Value::as_str`, on the value that `doc` parses to: the
/// text of a JSON string.
#[verifier::external_body]
pub(crate) fn string_value(doc: &str) -> (found: Option<String>)
    ensures
        text_of(found) == json_text(doc@),
{
    serde_json::from_str::<serde_json::Value>(doc).ok()?.as_str().map(|text| text.to_owned())
}

} // verus!
