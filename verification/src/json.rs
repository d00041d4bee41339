//! JSON documents handed over as primitive input.
use vstd::prelude::*;

verus! {

/// A JSON value parsed by `serde_json`, carried through unchanged.
#[verifier::external_type_specification]
#[verifier::external_body]
pub struct ExJsonValue(serde_json::Value);

/// A `serde_json` parse error.
#[verifier::external_type_specification]
#[verifier::external_body]
pub struct ExJsonError(serde_json::Error);

/// What a text is as a JSON document.
#[derive(Debug, Clone, Copy, PartialEq, Eq, Structural)]
pub enum JsonShape {
    /// Not a JSON document.
    Invalid,
    /// A JSON object.
    Object,
    /// Any other JSON value.
    Other,
}

/// The shape of `text` as `serde_json::from_str::<serde_json::Value>` reads it.
pub uninterp spec fn json_shape(text: Seq<char>) -> JsonShape;

/// The value that `serde_json::from_str::<serde_json::Value>` reads from a
/// JSON document.
pub uninterp spec fn json_value(text: Seq<char>) -> serde_json::Value;

/// `serde_json::from_str::<serde_json::Value>`; on success the flag tells the
/// `Value::Object` variant apart from the others. Claimed: the parse succeeds exactly when
/// the text is a JSON document, the value read is a function of the text
/// alone, and the flag says whether it is an object.
#[verifier::external_body]
pub fn parse_json(text: &str) -> (r: Result<(serde_json::Value, bool), serde_json::Error>)
    ensures
        r is Ok <==> json_shape(text@) != JsonShape::Invalid,
        r matches Ok((v, _)) ==> v == json_value(text@),
        r matches Ok((_, is_object)) ==> (is_object <==> json_shape(text@) == JsonShape::Object),
{
    match serde_json::from_str::<serde_json::Value>(text) {
        Ok(serde_json::Value::Object(m)) => Ok((serde_json::Value::Object(m), true)),
        Ok(v) => Ok((v, false)),
        Err(e) => Err(e),
    }
}

/// `serde_json::Error`'s `Display`: the parser's message. Nothing is claimed
/// of the text.
#[verifier::external_body]
pub fn json_error_text(e: &serde_json::Error) -> String {
    e.to_string()
}

} // verus!
