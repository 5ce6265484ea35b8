//! JSON documents as they arrive from the server.

use vstd::prelude::*;

verus! {

/// `serde_json::Value`, a parsed JSON document, carried through unopened.
#[verifier::external_type_specification]
#[verifier::external_body]
pub struct ExJsonValue(serde_json::Value);

/// What `serde_json::from_str` makes of a text when it is asked for a
/// `serde_json::Value`: the document, or the reason why the text is none.
pub uninterp spec fn parsed_json(text: Seq<char>) -> Result<serde_json::Value, serde_json::Error>;

/// The strings inside a document, each under the JSON Pointer (RFC 6901)
/// that leads to it. Pointers that lead nowhere, or to a member that is not
/// a string, are not in the map.
pub uninterp spec fn json_strings(document: serde_json::Value) -> Map<Seq<char>, Seq<char>>;

/// Parses a text as one JSON document.
///
/// Trusted: `serde_json::from_str` is a function of the text alone; the
/// contract gives its result a name and claims nothing else of it.
#[verifier::external_body]
pub(crate) fn parse_document(text: &str) -> (parsed: Result<serde_json::Value, serde_json::Error>)
    ensures
        parsed == parsed_json(text@),
{
    serde_json::from_str::<serde_json::Value>(text)
}

/// The string that a JSON Pointer leads to in a document, if it leads to
/// one.
///
/// Trusted: `serde_json::Value::pointer` resolves the pointer and
/// `serde_json::Value::as_str` hands out the member when it is a string;
/// the contract says that this is the entry of `json_strings` under the
/// pointer.
#[verifier::external_body]
pub(crate) fn string_at(document: &serde_json::Value, pointer: &str) -> (found: Option<String>)
    ensures
        match found {
            Some(text) => json_strings(*document).contains_key(pointer@)
                && json_strings(*document)[pointer@] == text@,
            None => !json_strings(*document).contains_key(pointer@),
        },
{
    match document.pointer(pointer) {
        Some(member) => member.as_str().map(String::from),
        None => None,
    }
}

} // verus!
