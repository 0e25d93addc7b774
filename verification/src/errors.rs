//! The error taxonomy of one request/response cycle.
//!
//! Every failure is surfaced to the caller as one variant of [`Error`]; the
//! variant alone identifies the failure class, and the collaborator's own
//! error value is kept inside it as the cause. A non-success HTTP status is
//! deliberately not an error: it becomes the empty outcome instead.

use hyper::Error as HyperError;
use vstd::prelude::*;

verus! {

/// Declares hyper's error type, so that a transport failure can be carried
/// inside [`Error`]. The value is opaque here; nothing reads it.
#[verifier::external_type_specification]
#[verifier::external_body]
pub struct ExHyperError(HyperError);

/// Declares rustc_serialize's JSON encoder error type, the cause kept by
/// [`Error::JsonEncoder`].
#[verifier::external_type_specification]
#[verifier::external_body]
pub struct ExEncoderError(rustc_serialize::json::EncoderError);

/// Declares rustc_serialize's JSON decoder error type, the cause kept by
/// [`Error::JsonDecoder`].
#[verifier::external_type_specification]
#[verifier::external_body]
pub struct ExDecoderError(rustc_serialize::json::DecoderError);

/// Declares std's I/O error type, the cause kept by [`Error::IoError`].
#[verifier::external_type_specification]
#[verifier::external_body]
pub struct ExIoError(std::io::Error);

/// One variant per failure class of a request/response cycle.
#[derive(Debug)]
pub enum Error {
    /// The HTTP transport failed: connection, protocol, or URL trouble.
    HttpClient(HyperError),
    /// The payload could not be serialized to JSON; no request was sent.
    JsonEncoder(rustc_serialize::json::EncoderError),
    /// A success-class response body could not be parsed into the
    /// requested type.
    JsonDecoder(rustc_serialize::json::DecoderError),
    /// Reading the response body out of the transport failed.
    IoError(std::io::Error),
}

impl From<HyperError> for Error {
    fn from(err: HyperError) -> Error {
        Error::HttpClient(err)
    }
}

impl vstd::std_specs::convert::FromSpecImpl<HyperError> for Error {
    open spec fn obeys_from_spec() -> bool {
        true
    }

    open spec fn from_spec(err: HyperError) -> Error {
        Error::HttpClient(err)
    }
}

impl From<rustc_serialize::json::EncoderError> for Error {
    fn from(err: rustc_serialize::json::EncoderError) -> Error {
        Error::JsonEncoder(err)
    }
}

impl vstd::std_specs::convert::FromSpecImpl<rustc_serialize::json::EncoderError> for Error {
    open spec fn obeys_from_spec() -> bool {
        true
    }

    open spec fn from_spec(err: rustc_serialize::json::EncoderError) -> Error {
        Error::JsonEncoder(err)
    }
}

impl From<rustc_serialize::json::DecoderError> for Error {
    fn from(err: rustc_serialize::json::DecoderError) -> Error {
        Error::JsonDecoder(err)
    }
}

impl vstd::std_specs::convert::FromSpecImpl<rustc_serialize::json::DecoderError> for Error {
    open spec fn obeys_from_spec() -> bool {
        true
    }

    open spec fn from_spec(err: rustc_serialize::json::DecoderError) -> Error {
        Error::JsonDecoder(err)
    }
}

impl From<std::io::Error> for Error {
    fn from(err: std::io::Error) -> Error {
        Error::IoError(err)
    }
}

impl vstd::std_specs::convert::FromSpecImpl<std::io::Error> for Error {
    open spec fn obeys_from_spec() -> bool {
        true
    }

    open spec fn from_spec(err: std::io::Error) -> Error {
        Error::IoError(err)
    }
}

} // verus!
