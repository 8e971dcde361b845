//! The JSON documents of `serde_json`, as far as the quote pipeline reads them.

use vstd::prelude::*;
use serde_json::Value;

verus! {

#[verifier::external_type_specification]
#[verifier::external_body]
pub struct ExValue(serde_json::Value);

#[verifier::external_type_specification]
#[verifier::external_body]
pub struct ExJsonError(serde_json::Error);

/// What `serde_json::from_str` makes of `text` at type `Value`: the document
/// that the text denotes, or the error that says why it denotes none.
pub uninterp spec fn json_parsed(text: Seq<char>) -> Result<Value, serde_json::Error>;

/// The member that `Value::get` finds under `key`, if `doc` is an object that has one.
pub uninterp spec fn json_member(doc: Value, key: Seq<char>) -> Option<Value>;

/// The elements that `Value::as_array` gives, if `doc` is an array.
pub uninterp spec fn json_elements(doc: Value) -> Option<Seq<Value>>;

/// `serde_json::from_str` at type `Value`: parses `text` as one JSON document.
/// The outcome, document or error, depends on the text alone; it is the one
/// named by [`json_parsed`].
#[verifier::external_body]
pub(crate) fn parse_document(text: &str) -> (r: Result<Value, serde_json::Error>)
    ensures
        r == json_parsed(text@),
{
    serde_json::from_str::<Value>(text)
}

/// `Value::get` with a string key: the member of an object under `key`.
/// `None` when `doc` is no object or has no such member.
#[verifier::external_body]
pub(crate) fn member<'a>(doc: &'a Value, key: &str) -> (r: Option<&'a Value>)
    ensures
        match r {
            Some(found) => json_member(*doc, key@) == Some(*found),
            None => json_member(*doc, key@) is None,
        },
{
    doc.get(key)
}

/// `Value::as_array`, with the elements cloned out: the elements of an array
/// in their order, `None` when `doc` is no array.
#[verifier::external_body]
pub(crate) fn elements(doc: &Value) -> (r: Option<Vec<Value>>)
    ensures
        match r {
            Some(items) => json_elements(*doc) == Some(items@),
            None => json_elements(*doc) is None,
        },
{
    doc.as_array().cloned()
}

} // verus!
