//! The JSON encodings the blog store relies on, read and written by
//! `serde_json`.
use vstd::prelude::*;

verus! {

/// The texts that `serde_json::from_str::<Vec<String>>` reads out of a JSON
/// document, or `None` when the document is no array of strings.
pub uninterp spec fn json_text_list(text: Seq<char>) -> Option<Seq<Seq<char>>>;

/// The JSON document that `serde_json::to_string` writes for a list of texts.
pub uninterp spec fn json_text_list_encoding(items: Seq<Seq<char>>) -> Seq<char>;

/// Whether `serde_json::from_str::<serde_json::Value>` refuses a text, and
/// with which message (the `Display` text of its error).
pub uninterp spec fn json_document_error(text: Seq<char>) -> Option<Seq<char>>;

#[verifier::external_type_specification]
#[verifier::external_body]
pub struct ExJsonValue(serde_json::Value);

/// Calls `serde_json::from_str::<Vec<String>>`. The contract claims only
/// that its answer is a function of the text (named, not written out).
#[verifier::external_body]
pub fn read_text_list(text: &str) -> (res: Option<Vec<String>>)
    ensures
        res is Some <==> json_text_list(text@) is Some,
        res matches Some(items) ==> json_text_list(text@) == Some(items.deep_view()),
{
    match serde_json::from_str::<Vec<String>>(text) {
        Ok(items) => Some(items),
        Err(_) => None,
    }
}

/// Calls `serde_json::to_string` on a list of texts. The contract claims
/// that it succeeds (its only failures are I/O errors of the writer, and it
/// writes into memory), that the result is named by the list, and that
/// `serde_json::from_str` reads the same list back out of it.
#[verifier::external_body]
pub fn write_text_list(items: &Vec<String>) -> (res: Option<String>)
    ensures
        res is Some,
        res matches Some(text) ==> text@ == json_text_list_encoding(items.deep_view()),
        res matches Some(text) ==> json_text_list(text@) == Some(items.deep_view()),
{
    match serde_json::to_string(items) {
        Ok(text) => Some(text),
        Err(_) => None,
    }
}

/// Calls `serde_json::from_str::<serde_json::Value>`. The contract claims
/// that it fails exactly when the named error exists for the text, and then
/// with that error's message; the parsed value itself stays opaque.
#[verifier::external_body]
pub fn read_json_document(text: &str) -> (res: Result<serde_json::Value, String>)
    ensures
        res is Ok <==> json_document_error(text@) is None,
        res matches Err(message) ==> json_document_error(text@) == Some(message@),
{
    match serde_json::from_str::<serde_json::Value>(text) {
        Ok(value) => Ok(value),
        Err(e) => Err(e.to_string()),
    }
}

} // verus!
