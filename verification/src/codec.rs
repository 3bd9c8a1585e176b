//! JSON codec for serialised values.

use vstd::prelude::*;

use crate::error::{code_of, ErrorCode, YugenDbError};
use crate::key::message_of;
use crate::value::ValueBytes;

verus! {

/// The JSON value type of `serde_json`.
#[verifier::external_type_specification]
#[verifier::external_body]
pub struct ExJsonValue(serde_json::Value);

/// The error type of `serde_json`.
#[verifier::external_type_specification]
#[verifier::external_body]
pub struct ExJsonError(serde_json::Error);

/// The JSON text that `serde_json` writes for a value.
pub uninterp spec fn json_bytes(value: serde_json::Value) -> Seq<u8>;

/// The JSON value that `serde_json` reads from bytes, or `None` where they
/// do not hold one JSON value.
pub uninterp spec fn json_value(bytes: Seq<u8>) -> Option<serde_json::Value>;

/// The message of the error that `serde_json` reports for bytes that do not
/// hold one JSON value.
pub uninterp spec fn json_error_text(bytes: Seq<u8>) -> Seq<char>;

/// Writes a JSON value as bytes.
///
/// Calls `serde_json::to_vec`; claims that it succeeds, since a `Value`
/// holds string keys and finite numbers only and writing to a `Vec` cannot
/// fail, and that the text is a function of the value (named `json_bytes`).
#[verifier::external_body]
fn json_to_vec(value: &serde_json::Value) -> (bytes: Result<Vec<u8>, serde_json::Error>)
    ensures
        bytes is Ok,
        bytes matches Ok(b) ==> b@ == json_bytes(*value),
{
    serde_json::to_vec(value)
}

/// Parses bytes as a JSON value, or gives the message of the parse error.
///
/// Calls `serde_json::from_slice::<serde_json::Value>`, and for a failure
/// `ToString::to_string` on the `serde_json::Error`, which writes what was
/// wrong and at which line and column. Claims that the value and the message
/// are functions of the bytes (named `json_value` and `json_error_text`).
#[verifier::external_body]
fn json_from_slice(bytes: &[u8]) -> (value: Result<serde_json::Value, String>)
    ensures
        value is Ok <==> json_value(bytes@) is Some,
        value matches Ok(v) ==> json_value(bytes@) == Some(v),
        value matches Err(message) ==> message@ == json_error_text(bytes@),
{
    match serde_json::from_slice(bytes) {
        Ok(value) => Ok(value),
        Err(error) => Err(error.to_string()),
    }
}

/// The message of a JSON error.
///
/// Calls `ToString::to_string` through `serde_json::Error`'s `Display`;
/// nothing is claimed of the text.
#[verifier::external_body]
fn json_error_message(error: &serde_json::Error) -> (message: String) {
    error.to_string()
}

/// JSON codec using `serde_json`.
#[derive(Debug, Clone, Copy, Default, PartialEq, Eq, Structural)]
pub struct JsonCodec;

impl JsonCodec {
    /// Stable codec name stored in value metadata.
    pub fn name(&self) -> (name: &'static str)
        ensures
            name@ == "json"@,
    {
        "json"
    }

    /// Serialises a JSON value into bytes for storage: its JSON text. A
    /// failure would be reported as a serialisation error carrying
    /// `serde_json`'s message; a JSON value always serialises.
    pub fn serialise_json_value(&self, value: &serde_json::Value) -> (bytes: Result<ValueBytes, YugenDbError>)
        ensures
            bytes matches Ok(b) && b@ == json_bytes(*value),
    {
        match json_to_vec(value) {
            Ok(bytes) => Ok(ValueBytes::new(bytes)),
            Err(error) => {
                let message = json_error_message(&error);
                Err(YugenDbError::serialisation_error(message.as_str()))
            },
        }
    }

    /// Deserialises bytes into a JSON value. Bytes that do not parse are
    /// reported as a deserialisation error carrying `serde_json`'s message.
    pub fn deserialise_json_value(&self, bytes: &ValueBytes) -> (value: Result<serde_json::Value, YugenDbError>)
        ensures
            value is Ok <==> json_value(bytes@) is Some,
            value matches Ok(v) ==> json_value(bytes@) == Some(v),
            value matches Err(e) ==> code_of(e) == ErrorCode::DeserialisationError && message_of(e) == json_error_text(
                bytes@,
            ),
    {
        match json_from_slice(bytes.as_slice()) {
            Ok(value) => Ok(value),
            Err(message) => Err(YugenDbError::deserialisation_error(message.as_str())),
        }
    }
}

} // verus!
