//! JSON documents read through `serde_json`, each carrying the bytes it was
//! read from.

use vstd::prelude::*;

verus! {

/// `serde_json::Value`: a JSON document of any shape.
#[verifier::external_type_specification]
#[verifier::external_body]
pub struct ExValue(serde_json::Value);

/// The bytes are one JSON document, as `serde_json` reads it.
pub uninterp spec fn is_json_document(bytes: Seq<u8>) -> bool;

/// A JSON document together with the bytes it was read from. Only
/// [`parse_json_value`] makes one.
pub struct JsonDocument {
    value: serde_json::Value,
    source: Ghost<Seq<u8>>,
}

impl JsonDocument {
    /// The bytes that the document was read from.
    pub closed spec fn source(&self) -> Seq<u8> {
        self.source@
    }

    /// The document.
    pub closed spec fn value(&self) -> serde_json::Value {
        self.value
    }

    /// Gives up the source bytes and keeps the document.
    pub fn into_value(self) -> (v: serde_json::Value)
        ensures
            v == self.value(),
    {
        self.value
    }
}

/// `serde_json::from_slice::<serde_json::Value>`: a document exactly where the
/// bytes hold one JSON document (as [`is_json_document`] names it), and then
/// the document read from these bytes. Which value that is the contract
/// leaves to the value's own type, opaque here.
#[verifier::external_body]
pub(crate) fn parse_json_value(bytes: &[u8]) -> (doc: Option<JsonDocument>)
    ensures
        doc is Some <==> is_json_document(bytes@),
        doc matches Some(d) ==> d.source() == bytes@,
{
    match serde_json::from_slice::<serde_json::Value>(bytes) {
        Ok(value) => Some(JsonDocument { value, source: Ghost(bytes@) }),
        Err(_) => None,
    }
}

} // verus!
