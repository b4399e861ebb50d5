//! The one place where the crate reads JSON. Parsing is `serde_json`'s work:
//! what it makes of a body is taken on trust, and named here so that the rest
//! of the crate can say exactly what it does with it.

use vstd::prelude::*;

verus! {

/// A document as `serde_json` holds it after parsing. Nothing in this crate
/// looks inside; [`text_members`] says what it has to offer.
#[verifier::external_type_specification]
#[verifier::external_body]
pub struct ExJsonValue(serde_json::Value);

/// The error of `serde_json`, carried from the parser to the code that
/// classifies it. Nothing is read from it.
#[verifier::external_type_specification]
#[verifier::external_body]
pub struct ExJsonError(serde_json::Error);

/// The text members of a document. Where the document is an object, each key
/// whose value is a JSON string is mapped to the text of that string, and no
/// other key is in the map. Where the document is anything else, the map is
/// empty.
pub uninterp spec fn text_members(document: serde_json::Value) -> Map<Seq<char>, Seq<char>>;

/// What parsing makes of `body`: `None` where `serde_json` turns the bytes
/// down (they are not one well-formed JSON value, with nothing but white space
/// after it), and otherwise the text members of the document they denote.
pub uninterp spec fn parsed_text_members(body: Seq<u8>) -> Option<Map<Seq<char>, Seq<char>>>;

/// The member under `key` among `texts`, if there is one.
pub open spec fn member(texts: Map<Seq<char>, Seq<char>>, key: Seq<char>) -> Option<Seq<char>> {
    if texts.contains_key(key) {
        Some(texts[key])
    } else {
        None
    }
}

/// The view of an optional string.
pub open spec fn text_view(text: Option<String>) -> Option<Seq<char>> {
    match text {
        Some(t) => Some(t@),
        None => None,
    }
}

/// Parses `body` with `serde_json::from_slice`, as a `serde_json::Value`.
///
/// Trusted: that the parser reads nothing but its argument, so that whether it
/// succeeds, and the text members of what it returns, are those that
/// [`parsed_text_members`] names for these bytes. It returns an error on
/// malformed input and does not panic.
#[verifier::external_body]
pub(crate) fn parse(body: &[u8]) -> (parsed: Result<serde_json::Value, serde_json::Error>)
    ensures
        parsed is Ok <==> parsed_text_members(body@) is Some,
        parsed matches Ok(document) ==> parsed_text_members(body@) == Some(text_members(document)),
{
    serde_json::from_slice(body)
}

/// Looks `key` up in `document` with the index operator of
/// `serde_json::Value`, and reads what it finds with `Value::as_str`.
///
/// Trusted: that the result is the text member under `key`. Indexing by a
/// string yields the member where the document is an object that has it and
/// the null value in every other case, without a panic; `as_str` is `Some` for
/// a JSON string and `None` for every other value, null included.
#[verifier::external_body]
pub(crate) fn text_member(document: &serde_json::Value, key: &str) -> (found: Option<String>)
    ensures
        text_view(found) == member(text_members(*document), key@),
{
    document[key].as_str().map(|text| text.to_owned())
}

} // verus!
