//! JSON documents. The documents are values of `serde_json`, which reads and
//! writes them; this module states what the library relies on.
//!
//! A document is spoken of by its compact text: the text without any white
//! space between its parts that `serde_json` writes for it.

use vstd::prelude::*;

verus! {

/// `serde_json::Value`: a JSON document. Nothing inside it is visible here;
/// what it holds is spoken of through [`json_text`].
#[verifier::external_type_specification]
#[verifier::external_body]
pub struct ExValue(serde_json::Value);

/// `serde_json::Error`: why a text could not be read, or a document not be
/// written. Nothing is claimed of it.
#[verifier::external_type_specification]
#[verifier::external_body]
pub struct ExJsonError(serde_json::Error);

/// The compact text of a document: what `Display` writes for a
/// `serde_json::Value`.
pub uninterp spec fn json_text(value: serde_json::Value) -> Seq<char>;

/// The compact text of the document that `serde_json::from_str` reads from
/// `text`, or `None` where it reports an error.
pub uninterp spec fn json_parse(text: Seq<char>) -> Option<Seq<char>>;

/// The compact text of the member `key` of the document with the compact
/// text `document`, as `serde_json::Value::get` finds it; `None` where the
/// document is no object or has no such member.
pub uninterp spec fn json_member(document: Seq<char>, key: Seq<char>) -> Option<Seq<char>>;

/// The compact text of the JSON string that holds `content`: what
/// `serde_json::Value::from` makes of a string slice.
pub uninterp spec fn json_string(content: Seq<char>) -> Seq<char>;

/// The indented text that `serde_json::to_string_pretty` writes for the
/// document with the compact text `document`, or `None` where it reports an
/// error.
pub uninterp spec fn json_pretty(document: Seq<char>) -> Option<Seq<char>>;

/// `serde_json::from_str` for a `Value`: the document that `text` holds, or
/// the reader's error. Nothing is claimed of the error.
#[verifier::external_body]
pub(crate) fn parse(text: &str) -> (parsed: Result<serde_json::Value, serde_json::Error>)
    ensures
        match parsed {
            Ok(value) => json_parse(text@) == Some(json_text(value)),
            Err(_) => json_parse(text@) is None,
        },
{
    serde_json::from_str::<serde_json::Value>(text)
}

/// `Display` of `serde_json::Error`: the error in words. Nothing is claimed
/// of the words.
#[verifier::external_body]
pub(crate) fn error_text(error: &serde_json::Error) -> (text: String) {
    error.to_string()
}

/// `serde_json::Value::get` with a string key: the member of an object
/// under that key; `None` for a missing member and for a document that is no
/// object.
#[verifier::external_body]
pub(crate) fn member<'a>(value: &'a serde_json::Value, key: &str) -> (found: Option<
    &'a serde_json::Value,
>)
    ensures
        match found {
            Some(inner) => json_member(json_text(*value), key@) == Some(json_text(*inner)),
            None => json_member(json_text(*value), key@) is None,
        },
{
    value.get(key)
}

/// `Display` of `serde_json::Value`: the compact text of the document.
#[verifier::external_body]
pub(crate) fn render(value: &serde_json::Value) -> (text: String)
    ensures
        text@ == json_text(*value),
{
    value.to_string()
}

/// `From<&str>` of `serde_json::Value`: the JSON string with this content.
#[verifier::external_body]
pub(crate) fn string_value(content: &str) -> (value: serde_json::Value)
    ensures
        json_text(value) == json_string(content@),
{
    serde_json::Value::from(content)
}

/// `serde_json::to_string_pretty` for a `Value`: the indented text of the
/// document, or the writer's error. It is not claimed that the writer
/// succeeds, and nothing is claimed of the error.
#[verifier::external_body]
pub(crate) fn render_pretty(value: &serde_json::Value) -> (written: Result<
    String,
    serde_json::Error,
>)
    ensures
        match written {
            Ok(text) => json_pretty(json_text(*value)) == Some(text@),
            Err(_) => json_pretty(json_text(*value)) is None,
        },
{
    serde_json::to_string_pretty(value)
}

} // verus!
