use vstd::prelude::*;

verus! {

/// A JSON document as serde_json holds it. The gateway reads a document only
/// through the functions below and otherwise carries it through unchanged.
#[verifier::external_type_specification]
#[verifier::external_body]
pub struct ExJsonValue(serde_json::Value);

/// The document that serde_json reads from a text, or `None` where the text is
/// not JSON.
pub uninterp spec fn parsed_json(text: Seq<char>) -> Option<serde_json::Value>;

/// The member of a JSON object under a key; `None` where the document is not an
/// object or has no such key.
pub uninterp spec fn json_member(doc: serde_json::Value, key: Seq<char>) -> Option<
    serde_json::Value,
>;

/// Relies on serde_json::from_str into a `serde_json::Value`: the result depends
/// on the text alone, and is an error exactly where the text is not JSON.
#[verifier::external_body]
pub(crate) fn parse_json(text: &str) -> (r: Option<serde_json::Value>)
    ensures
        r == parsed_json(text@),
{
    serde_json::from_str::<serde_json::Value>(text).ok()
}

/// Relies on serde_json::Value::get with a string key: the member under that
/// key where the document is an object holding it, else `None`. The member is
/// handed out as a copy.
#[verifier::external_body]
pub(crate) fn member(doc: &serde_json::Value, key: &str) -> (r: Option<serde_json::Value>)
    ensures
        r == json_member(*doc, key@),
{
    doc.get(key).cloned()
}

} // verus!
