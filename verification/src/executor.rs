//! The decisions of one request/response cycle.
//!
//! A cycle runs: build the body from the optional payload, dispatch through
//! the transport, classify the status, and turn the reply into the
//! caller-facing outcome. The dispatch itself is the transport
//! collaborator's I/O; everything decided before and after it stands here,
//! verified. A non-success status yields the empty outcome `Ok(None)`, never
//! an error; only transport, encoding, body-read and decoding failures
//! surface as [`Error`] values.

use crate::codec::{json_decode, json_encode};
use crate::errors::Error;
use vstd::prelude::*;

verus! {

/// The success status class of HTTP: codes 200 through 299.
pub open spec fn success_class(status: u16) -> bool {
    200 <= status <= 299
}

/// Classifies a response status code: `true` exactly for the 2xx class.
pub fn is_success_status(status: u16) -> (b: bool)
    ensures
        b == success_class(status),
{
    200 <= status && status <= 299
}

/// What the transport yielded for one exchange, seen after status
/// classification: a reply outside the success class, whose body is never
/// read, or a success-class reply together with the attempt to read its
/// body out of the transport.
pub enum Reply {
    /// The status was not in the success class; the body was not read.
    Other,
    /// The status was in the success class; the field holds the body, or
    /// the I/O failure met while reading it.
    Success(Result<String, std::io::Error>),
}

/// Builds the request body from the optional payload: no payload means no
/// body at all, a payload is serialized to JSON text, and a serialization
/// failure ends the cycle with [`Error::JsonEncoder`] before any request
/// goes out.
pub fn prepare_body<S: rustc_serialize::Encodable>(data: Option<S>) -> (r: Result<
    Option<String>,
    Error,
>)
    ensures
        data is None <==> r == Ok::<Option<String>, Error>(None::<String>),
        r matches Ok(body) ==> (body is Some <==> data is Some),
        r matches Err(e) ==> e is JsonEncoder && data is Some,
{
    match data {
        None => Ok(None),
        Some(payload) => match json_encode(&payload) {
            Ok(text) => Ok(Some(text)),
            Err(e) => Err(Error::JsonEncoder(e)),
        },
    }
}

/// Turns the transport's reply into the typed outcome: a non-success reply
/// is the empty outcome, a failed body read is [`Error::IoError`], and a
/// body in hand is decoded, giving either the value or
/// [`Error::JsonDecoder`] — a success-class reply never yields `Ok(None)`,
/// so the empty outcome singles out the non-success class.
pub fn response_outcome<D: rustc_serialize::Decodable>(reply: Reply) -> (r: Result<
    Option<D>,
    Error,
>)
    ensures
        reply is Other ==> r == Ok::<Option<D>, Error>(None::<D>),
        reply matches Reply::Success(Err(io)) ==> r == Err::<Option<D>, Error>(
            Error::IoError(io),
        ),
        reply matches Reply::Success(Ok(body)) ==> ((r matches Ok(d) ==> d is Some) && (
        r matches Err(e) ==> e is JsonDecoder)),
{
    match reply {
        Reply::Other => Ok(None),
        Reply::Success(Err(io)) => Err(Error::IoError(io)),
        Reply::Success(Ok(body)) => match json_decode::<D>(body.as_str()) {
            Ok(value) => Ok(Some(value)),
            Err(e) => Err(Error::JsonDecoder(e)),
        },
    }
}

/// Turns the transport's reply into the raw-text outcome, for the variant
/// of the cycle that skips typed decoding: the literal body text comes back
/// unmodified on success, the empty outcome on a non-success reply, and
/// [`Error::IoError`] where reading the body failed.
pub fn text_outcome(reply: Reply) -> (r: Result<Option<String>, Error>)
    ensures
        reply is Other ==> r == Ok::<Option<String>, Error>(None::<String>),
        reply matches Reply::Success(Ok(body)) ==> r == Ok::<Option<String>, Error>(
            Some(body),
        ),
        reply matches Reply::Success(Err(io)) ==> r == Err::<Option<String>, Error>(
            Error::IoError(io),
        ),
{
    match reply {
        Reply::Other => Ok(None),
        Reply::Success(Ok(body)) => Ok(Some(body)),
        Reply::Success(Err(io)) => Err(Error::IoError(io)),
    }
}

} // verus!
