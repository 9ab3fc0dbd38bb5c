use vstd::prelude::*;

use crate::error::AdapterError;

verus! {

#[verifier::external_type_specification]
#[verifier::external_body]
pub struct ExJsonValue(serde_json::Value);

/// Whether serde_json accepts `text` as one JSON value.
pub uninterp spec fn is_json_document(text: Seq<char>) -> bool;

/// Relies on `serde_json::from_str::<serde_json::Value>`: it succeeds exactly
/// on the texts that are one JSON value, and which texts those are depends on
/// the text alone. On failure the parser's message is handed back.
#[verifier::external_body]
fn parse_json(text: &str) -> (r: Result<serde_json::Value, String>)
    ensures
        r is Ok <==> is_json_document(text@),
{
    match serde_json::from_str::<serde_json::Value>(text) {
        Ok(v) => Ok(v),
        Err(e) => Err(e.to_string()),
    }
}

/// A receipt read back after a run: the document as parsed, for direct field
/// access, beside the text it came from. No schema is imposed on it.
#[derive(Debug)]
pub struct Receipt {
    pub raw: serde_json::Value,
    text: String,
}

impl Receipt {
    /// The text the receipt was parsed from.
    pub closed spec fn source(&self) -> Seq<char> {
        self.text@
    }

    /// The text the receipt was parsed from.
    pub fn text(&self) -> (r: &str)
        ensures
            r@ == self.source(),
    {
        self.text.as_str()
    }

    /// Parses the text of a receipt file. Fails with a parse failure exactly
    /// when the text is not a structured document; never yields an empty
    /// receipt in its place.
    pub fn parse(text: &str) -> (r: Result<Receipt, AdapterError>)
        ensures
            r is Ok <==> is_json_document(text@),
            r matches Ok(rc) ==> rc.source() == text@,
            r matches Err(e) ==> e@ is Parse,
    {
        match parse_json(text) {
            Ok(raw) => Ok(Receipt { raw, text: text.to_owned() }),
            Err(detail) => Err(AdapterError::ParseFailure { detail }),
        }
    }
}

} // verus!
