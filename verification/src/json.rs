//! What the line protocol needs of JSON documents, which `serde_json`
//! parses and holds.

use vstd::prelude::*;

verus! {

#[verifier::external_type_specification]
#[verifier::external_body]
pub struct ExJsonValue(serde_json::Value);

#[verifier::external_type_specification]
#[verifier::external_body]
pub struct ExJsonError(serde_json::Error);

/// The members of a JSON object whose values are strings, as a map from
/// each such member's key to its text. A document that is no object has
/// none.
pub uninterp spec fn string_members(document: serde_json::Value) -> Map<Seq<char>, Seq<char>>;

/// The string members of the document that a text spells, or `None` where
/// the text is not one well-formed JSON document.
pub uninterp spec fn parsed_string_members(text: Seq<u8>) -> Option<Map<Seq<char>, Seq<char>>>;

/// Calls `serde_json::from_slice` for a `serde_json::Value`. The contract
/// claims that parsing depends on the text alone: a text either is
/// refused, or gives a document whose string members are those that the
/// text spells.
#[verifier::external_body]
pub(crate) fn parse_document(text: &[u8]) -> (parsed: Result<
    serde_json::Value,
    serde_json::Error,
>)
    ensures
        match parsed {
            Ok(document) => parsed_string_members(text@) == Some(string_members(document)),
            Err(_) => parsed_string_members(text@) is None,
        },
{
    serde_json::from_slice::<serde_json::Value>(text)
}

/// Calls `serde_json::Value::get` with a key and hands out the text of the
/// member found, where `serde_json::Value::as_str` finds it to be a string.
/// The contract claims that this is the lookup of the key among the string
/// members of the document.
#[verifier::external_body]
pub(crate) fn string_member(document: &serde_json::Value, key: &str) -> (found: Option<String>)
    ensures
        match found {
            Some(text) => string_members(*document).contains_key(key@) && string_members(
                *document,
            )[key@] == text@,
            None => !string_members(*document).contains_key(key@),
        },
{
    document.get(key).and_then(serde_json::Value::as_str).map(str::to_owned)
}

} // verus!
