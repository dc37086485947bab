//! Byte payloads as they travel between the core and a broker.

use bytes::Bytes;
use vstd::prelude::*;

verus! {

/// `bytes::Bytes`, a shared, immutable run of bytes. Nothing is known of a
/// value but what [`payload_bytes`] names.
#[verifier::external_type_specification]
#[verifier::external_body]
pub struct ExBytes(bytes::Bytes);

/// The bytes a payload holds, in order: what `Bytes` hands out as a slice.
pub uninterp spec fn payload_bytes(payload: Bytes) -> Seq<u8>;

/// `Bytes::from(Vec<u8>)` takes ownership of the vector without changing
/// its contents: the payload holds exactly the vector's bytes.
#[verifier::external_body]
pub(crate) fn payload_from_vec(bytes: Vec<u8>) -> (payload: Bytes)
    ensures
        payload_bytes(payload) == bytes@,
{
    Bytes::from(bytes)
}

/// `Vec::<u8>::from(Bytes)` hands the payload's bytes out as a vector,
/// in the same order and with nothing added or dropped.
#[verifier::external_body]
pub(crate) fn payload_into_vec(payload: Bytes) -> (bytes: Vec<u8>)
    ensures
        bytes@ == payload_bytes(payload),
{
    Vec::from(payload)
}

} // verus!
