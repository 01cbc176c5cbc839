//! Parsing of payload bytes as JSON text.

use vstd::prelude::*;

use crate::document::Document;
use crate::document::DocumentView;
use crate::document::RawValue;
use serde_json::Value;

verus! {

/// What the bytes of a payload say when read as JSON text: the document, or
/// the parser's message where they are no JSON text.
pub uninterp spec fn json_document(bytes: Seq<u8>) -> Result<DocumentView, Seq<char>>;

/// Calls `serde_json::from_slice` for a `serde_json::Value` and lists the
/// members of the object that it returns.
///
/// Trusted: the outcome is a function of the bytes alone. Nothing is claimed
/// of which bytes parse, nor of what they parse to.
#[verifier::external_body]
pub(crate) fn parse_json(bytes: &[u8]) -> (r: Result<Document, String>)
    ensures
        match r {
            Ok(document) => json_document(bytes@) == Ok::<DocumentView, Seq<char>>(document@),
            Err(message) => json_document(bytes@) == Err::<DocumentView, Seq<char>>(message@),
        },
{
    match serde_json::from_slice::<Value>(bytes) {
        Ok(Value::Object(map)) => Ok(Document::Record(map.into_iter().map(|(name, value)| (name, match value {
            Value::Null => RawValue::Null,
            Value::Number(n) => RawValue::Number { unsigned: n.as_u64(), signed: n.as_i64() },
            Value::String(text) => RawValue::Text(text),
            _ => RawValue::Other,
        })).collect())),
        Ok(_) => Ok(Document::NotARecord),
        Err(error) => Err(error.to_string()),
    }
}

} // verus!
