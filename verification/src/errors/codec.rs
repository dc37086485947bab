use vstd::prelude::*;

verus! {

/// `serde_json::Error`, carried as it comes; nothing is known of a value.
#[verifier::external_type_specification]
#[verifier::external_body]
pub struct ExJsonError(serde_json::Error);

/// `rmp_serde::encode::Error`, carried as it comes; nothing is known of a value.
#[verifier::external_type_specification]
#[verifier::external_body]
pub struct ExMessagePackEncodeError(rmp_serde::encode::Error);

/// `rmp_serde::decode::Error`, carried as it comes; nothing is known of a value.
#[verifier::external_type_specification]
#[verifier::external_body]
pub struct ExMessagePackDecodeError(rmp_serde::decode::Error);

/// A value that could not be encoded.
#[derive(Debug)]
pub enum EncodeError {
    /// The value has no JSON form.
    Json(serde_json::Error),
    /// The value has no MessagePack form.
    MessagePack(rmp_serde::encode::Error),
}

/// A payload that could not be decoded: malformed bytes, or bytes that
/// describe a value of another shape.
#[derive(Debug)]
pub enum DecodeError {
    /// The payload is not the JSON text of a value of the expected type.
    Json(serde_json::Error),
    /// The payload is not the MessagePack form of a value of the expected type.
    MessagePack(rmp_serde::decode::Error),
}

/// The `Display` text of a `serde_json::Error`. Nothing is claimed of the
/// text: it is whatever serde_json prints for the error.
#[verifier::external_body]
pub(crate) fn json_error_text(err: &serde_json::Error) -> (text: String) {
    format!("{}", err)
}

/// The `Display` text of a `rmp_serde::encode::Error`. Nothing is claimed
/// of the text: it is whatever rmp_serde prints for the error.
#[verifier::external_body]
pub(crate) fn msgpack_encode_error_text(err: &rmp_serde::encode::Error) -> (text: String) {
    format!("{}", err)
}

/// The `Display` text of a `rmp_serde::decode::Error`. Nothing is claimed
/// of the text: it is whatever rmp_serde prints for the error.
#[verifier::external_body]
pub(crate) fn msgpack_decode_error_text(err: &rmp_serde::decode::Error) -> (text: String) {
    format!("{}", err)
}

/// The text of an error with a cause: `heading`, then `cause`.
pub fn headed(heading: &str, cause: String) -> (text: String)
    ensures
        text@ == heading@ + cause@,
{
    String::from_str(heading).concat(cause.as_str())
}

} // verus!
