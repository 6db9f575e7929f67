//! JSON documents, read with `serde_json`.
//!
//! The service answers a duplicate request with a loosely shaped JSON object.
//! The verifier looks at the top-level members of that object and at nothing
//! else, so a document is modelled by two maps: its members that are JSON
//! booleans and its members that are JSON strings. Parsing and member access
//! are `serde_json`'s; their contracts here are taken on trust.

use vstd::prelude::*;

verus! {

#[verifier::external_type_specification]
#[verifier::external_body]
pub struct ExJsonValue(serde_json::Value);

#[verifier::external_type_specification]
#[verifier::external_body]
pub struct ExJsonError(serde_json::Error);

/// The top-level members of a document whose value is a JSON boolean, by
/// key. Empty where the document is not an object.
pub uninterp spec fn flag_members(document: serde_json::Value) -> Map<Seq<char>, bool>;

/// The top-level members of a document whose value is a JSON string, by key.
/// Empty where the document is not an object.
pub uninterp spec fn text_members(document: serde_json::Value) -> Map<Seq<char>, Seq<char>>;

/// What `serde_json::from_str` reads from a text: the boolean members and the
/// string members of the document, or `None` where the text is not one JSON
/// value.
pub uninterp spec fn parsed_members(text: Seq<char>) -> Option<
    (Map<Seq<char>, bool>, Map<Seq<char>, Seq<char>>),
>;

/// The boolean member `key` of a document that was read from `text`.
pub open spec fn parsed_flag(text: Seq<char>, key: Seq<char>) -> Option<bool> {
    match parsed_members(text) {
        Some((flags, _)) if flags.contains_key(key) => Some(flags[key]),
        _ => None,
    }
}

/// The string member `key` of a document that was read from `text`.
pub open spec fn parsed_text(text: Seq<char>, key: Seq<char>) -> Option<Seq<char>> {
    match parsed_members(text) {
        Some((_, texts)) if texts.contains_key(key) => Some(texts[key]),
        _ => None,
    }
}

/// Calls `serde_json::from_str` for a `serde_json::Value`. The parser reads
/// the text alone, so the same text always yields the same document or the
/// same refusal; the contract claims that and nothing about which texts are
/// accepted.
#[verifier::external_body]
pub(crate) fn parse_document(text: &str) -> (parsed: Result<serde_json::Value, serde_json::Error>)
    ensures
        match parsed {
            Ok(document) => parsed_members(text@) == Some(
                (flag_members(document), text_members(document)),
            ),
            Err(_) => parsed_members(text@) is None,
        },
{
    serde_json::from_str(text)
}

/// Indexes a `serde_json::Value` by a key and calls `Value::as_bool` on what
/// is found. Indexing yields the member of an object, and JSON null for a
/// missing key or a document that is no object; `as_bool` yields the boolean
/// of a JSON boolean and `None` for every other value.
#[verifier::external_body]
pub(crate) fn flag_member(document: &serde_json::Value, key: &str) -> (found: Option<bool>)
    ensures
        found == if flag_members(*document).contains_key(key@) {
            Some(flag_members(*document)[key@])
        } else {
            None
        },
{
    document[key].as_bool()
}

/// Indexes a `serde_json::Value` by a key and calls `Value::as_str` on what
/// is found, copying the text out. `as_str` yields the text of a JSON string
/// and `None` for every other value.
#[verifier::external_body]
pub(crate) fn text_member(document: &serde_json::Value, key: &str) -> (found: Option<String>)
    ensures
        match found {
            Some(text) => text_members(*document).contains_key(key@) && text@ == text_members(
                *document,
            )[key@],
            None => !text_members(*document).contains_key(key@),
        },
{
    document[key].as_str().map(str::to_owned)
}

} // verus!
