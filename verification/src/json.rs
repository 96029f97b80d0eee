//! The JSON reader and writer that the envelope of cell data is built on.
//!
//! Nothing in this file is proved. Each item states what the library takes
//! from `serde_json`, and the rest of the library is proved from that.

use vstd::prelude::*;

verus! {

/// A JSON document in memory.
#[verifier::external_type_specification]
#[verifier::external_body]
pub struct ExJsonValue(serde_json::Value);

/// The error of the JSON reader or writer.
#[verifier::external_type_specification]
#[verifier::external_body]
pub struct ExJsonError(serde_json::Error);

/// What the library tells apart in a member of a JSON object.
pub enum JsonMember {
    /// A JSON string, with its text.
    Text(Seq<char>),
    /// A JSON number that is written without sign, fraction or exponent and
    /// is at most `u64::MAX`.
    Unsigned(u64),
    /// Anything else.
    Other,
}

/// The JSON string literal that `serde_json::to_string` writes for a text:
/// the text between double quotes, with the characters escaped that JSON
/// does not allow in a string.
pub uninterp spec fn json_string_literal(text: Seq<char>) -> Seq<char>;

/// The members of a JSON document: for a JSON object its members by name,
/// for any other document none.
pub uninterp spec fn json_members(doc: serde_json::Value) -> Map<Seq<char>, JsonMember>;

/// What `serde_json::from_str` reads from a text: the members of the document,
/// where the text is one JSON document, and nothing where it is not.
pub uninterp spec fn json_parsed(text: Seq<char>) -> Option<Map<Seq<char>, JsonMember>>;

/// Calls `serde_json::to_string` on a string slice. The call writes into a
/// buffer in memory and a string has no step that can fail, so it returns
/// `Ok`, with the JSON string literal of the text.
#[verifier::external_body]
pub(crate) fn string_literal(text: &str) -> (literal: Result<String, serde_json::Error>)
    ensures
        literal is Ok,
        literal matches Ok(written) ==> written@ == json_string_literal(text@),
{
    serde_json::to_string(text)
}

/// Calls `serde_json::from_str` for a `serde_json::Value`. It returns the
/// document that the text holds, and an error where the text is not exactly
/// one JSON document. The result depends on the text alone.
#[verifier::external_body]
pub(crate) fn parse_document(text: &str) -> (parsed: Result<serde_json::Value, serde_json::Error>)
    ensures
        match parsed {
            Ok(doc) => json_parsed(text@) == Some(json_members(doc)),
            Err(_) => json_parsed(text@) is None,
        },
{
    serde_json::from_str::<serde_json::Value>(text)
}

/// Calls `Value::get` with a name and `Value::as_str` on what it finds. The
/// result is the text of the member of that name, where the document is an
/// object that has such a member and the member is a JSON string.
#[verifier::external_body]
pub(crate) fn text_member(doc: &serde_json::Value, name: &str) -> (member: Option<String>)
    ensures
        match member {
            Some(text) => json_members(*doc).contains_key(name@)
                && json_members(*doc)[name@] == JsonMember::Text(text@),
            None => !(json_members(*doc).contains_key(name@)
                && json_members(*doc)[name@] is Text),
        },
{
    doc.get(name)?.as_str().map(str::to_owned)
}

/// Calls `Value::get` with a name and `Value::as_u64` on what it finds. The
/// result is the number of the member of that name, where the document is an
/// object that has such a member and the member is a number that was written
/// without sign, fraction or exponent and is at most `u64::MAX`.
#[verifier::external_body]
pub(crate) fn unsigned_member(doc: &serde_json::Value, name: &str) -> (member: Option<u64>)
    ensures
        match member {
            Some(number) => json_members(*doc).contains_key(name@)
                && json_members(*doc)[name@] == JsonMember::Unsigned(number),
            None => !(json_members(*doc).contains_key(name@)
                && json_members(*doc)[name@] is Unsigned),
        },
{
    doc.get(name)?.as_u64()
}

/// Calls `to_string` on a `serde_json::Error`, which writes its description.
#[verifier::external_body]
pub(crate) fn error_text(error: &serde_json::Error) -> (text: String) {
    error.to_string()
}

} // verus!
