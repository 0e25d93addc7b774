//! Core of a minimal JSON-over-HTTP client helper.
//!
//! One request/response cycle is: encode an optional typed payload as the
//! request body, hand the request to the HTTP transport, classify the
//! response status, and decode the body of a success-class response into a
//! typed value. The transport exchange itself is I/O and lives with the
//! caller; this crate holds the decisions around it: [`prepare_body`] builds
//! the body, [`is_success_status`] classifies the status, and
//! [`response_outcome`] / [`text_outcome`] turn what came back into the
//! caller-facing result, with every failure class surfaced as an [`Error`].

mod codec;
pub mod errors;
pub mod executor;

pub use errors::Error;
pub use executor::is_success_status;
pub use executor::prepare_body;
pub use executor::response_outcome;
pub use executor::success_class;
pub use executor::text_outcome;
pub use executor::Reply;
