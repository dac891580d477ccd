use vstd::prelude::*;
use crate::json::{JsonModel, JsonValue};

verus! {

/// `serde_json::Value`, the document as the parser hands it over. Nothing is known of
/// its inside; it is only carried from the parser to `value_tree`.
#[verifier::external_type_specification]
#[verifier::external_body]
pub struct ExValue(serde_json::Value);

/// `serde_json::Error`, what the parser reports when a text is no JSON. Nothing is
/// known of its inside.
#[verifier::external_type_specification]
#[verifier::external_body]
pub struct ExError(serde_json::Error);

/// The document that `serde_json::from_str` reads from a text, or `None` where it
/// reports an error.
pub uninterp spec fn parsed_document(text: Seq<char>) -> Option<JsonModel>;

/// The document that a `serde_json::Value` holds.
pub uninterp spec fn document_of(value: serde_json::Value) -> JsonModel;

/// Calls `serde_json::from_str` for a `serde_json::Value`. Trusted: whether the call
/// succeeds, and the document it yields, depend on the text alone.
#[verifier::external_body]
fn read_value(text: &str) -> (r: Result<serde_json::Value, serde_json::Error>)
    ensures
        match r {
            Ok(value) => parsed_document(text@) == Some(document_of(value)),
            Err(_) => parsed_document(text@) is None,
        },
{
    serde_json::from_str(text)
}

/// Moves a `serde_json::Value` into a tree of plain values, variant by variant; a
/// number is kept as the text `serde_json::Number` displays. Trusted: the tree holds
/// the same document.
#[verifier::external_body]
fn value_tree(value: &serde_json::Value) -> (r: JsonValue)
    ensures
        r@ == document_of(*value),
{
    match value {
        serde_json::Value::Null => JsonValue::Null,
        serde_json::Value::Bool(b) => JsonValue::Bool(*b),
        serde_json::Value::Number(n) => JsonValue::Number(n.to_string()),
        serde_json::Value::String(s) => JsonValue::String(s.clone()),
        serde_json::Value::Array(a) => JsonValue::Array(a.iter().map(value_tree).collect()),
        serde_json::Value::Object(m) => JsonValue::Object(
            m.iter().map(|(k, v)| (k.clone(), value_tree(v))).collect(),
        ),
    }
}

/// Calls `to_string` on a `serde_json::Error`: the parser's diagnostic.
#[verifier::external_body]
fn diagnostic(error: &serde_json::Error) -> (r: String)
{
    error.to_string()
}

/// Reads a JSON text into a document. Where the text is no JSON, the error is the
/// parser's diagnostic.
pub fn parse_json(text: &str) -> (r: Result<JsonValue, String>)
    ensures
        match r {
            Ok(document) => parsed_document(text@) == Some(document@),
            Err(_) => parsed_document(text@) is None,
        },
{
    match read_value(text) {
        Ok(value) => Ok(value_tree(&value)),
        Err(error) => Err(diagnostic(&error)),
    }
}

} // verus!
