//! Trusted boundary to the JSON codec collaborator.
//!
//! The codec encodes any `Encodable` value to JSON text and decodes JSON
//! text into any `Decodable` value. What either call produces depends on the
//! payload type's own trait implementation, so nothing is promised of the
//! produced value here; the callers state which outcome shapes they build
//! from each result.

use vstd::prelude::*;

verus! {

/// Relies on rustc_serialize's json::encode: serializes `data` to JSON text,
/// or reports the encoder's failure. The result depends on the payload
/// type's `Encodable` implementation, so no value is promised of it.
#[verifier::external_body]
pub(crate) fn json_encode<S: rustc_serialize::Encodable>(data: &S) -> (r: Result<
    String,
    rustc_serialize::json::EncoderError,
>) {
    rustc_serialize::json::encode(data)
}

/// Relies on rustc_serialize's json::decode: parses JSON text into a value
/// of the requested type, or reports the decoder's failure. The result
/// depends on the target type's `Decodable` implementation, so no value is
/// promised of it.
#[verifier::external_body]
pub(crate) fn json_decode<D: rustc_serialize::Decodable>(body: &str) -> (r: Result<
    D,
    rustc_serialize::json::DecoderError,
>) {
    rustc_serialize::json::decode(body)
}

} // verus!
