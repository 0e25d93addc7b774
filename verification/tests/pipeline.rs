//! Exercises the request pipeline against simulated collaborator replies:
//! the encode step, status classification, and both outcome variants.

use std::collections::HashMap;

use json_request::{
    is_success_status, prepare_body, response_outcome, text_outcome, Error, Reply,
};
use rustc_serialize::{Decodable, Decoder, Encodable, Encoder};

struct RequestData {
    ping: bool,
}

impl Encodable for RequestData {
    fn encode<S: Encoder>(&self, s: &mut S) -> Result<(), S::Error> {
        s.emit_struct("RequestData", 1, |s| {
            s.emit_struct_field("ping", 0, |s| s.emit_bool(self.ping))
        })
    }
}

#[derive(Debug, PartialEq)]
struct ResponseData {
    pong: bool,
}

impl Decodable for ResponseData {
    fn decode<D: Decoder>(d: &mut D) -> Result<ResponseData, D::Error> {
        d.read_struct("ResponseData", 1, |d| {
            let pong = d.read_struct_field("pong", 0, |d| d.read_bool())?;
            Ok(ResponseData { pong: pong })
        })
    }
}

fn echo_body() -> String {
    String::from("{\"pong\": true}")
}

#[test]
fn ping_payload_becomes_json_body() {
    let r = prepare_body(Some(RequestData { ping: true }));
    match r {
        Ok(Some(body)) => assert_eq!(body, "{\"ping\":true}"),
        other => panic!("expected a body, got {:?}", other.map(|_| ())),
    }
}

#[test]
fn none_payload_has_no_body() {
    let r = prepare_body(None::<u8>);
    assert!(matches!(r, Ok(None)));
}

#[test]
fn echo_reply_decodes() {
    let r: Result<Option<ResponseData>, Error> = response_outcome(Reply::Success(Ok(echo_body())));
    assert_eq!(r.unwrap(), Some(ResponseData { pong: true }));
}

#[test]
fn no_payload_still_decodes() {
    let body = prepare_body(None::<u8>).unwrap();
    assert!(body.is_none());
    let r: Result<Option<ResponseData>, Error> = response_outcome(Reply::Success(Ok(echo_body())));
    assert_eq!(r.unwrap(), Some(ResponseData { pong: true }));
}

#[test]
fn raw_text_comes_back_unmodified() {
    let r = text_outcome(Reply::Success(Ok(echo_body())));
    assert_eq!(r.unwrap(), Some(String::from("{\"pong\": true}")));
}

#[test]
fn other_status_yields_none() {
    let typed: Result<Option<ResponseData>, Error> = response_outcome(Reply::Other);
    assert!(matches!(typed, Ok(None)));
    let raw = text_outcome(Reply::Other);
    assert!(matches!(raw, Ok(None)));
}

#[test]
fn status_classification() {
    assert!(is_success_status(200));
    assert!(is_success_status(204));
    assert!(is_success_status(299));
    assert!(!is_success_status(100));
    assert!(!is_success_status(199));
    assert!(!is_success_status(300));
    assert!(!is_success_status(404));
    assert!(!is_success_status(500));
}

#[test]
fn bad_payload_is_encode_failure() {
    let mut payload: HashMap<bool, bool> = HashMap::new();
    payload.insert(true, true);
    let r = prepare_body(Some(payload));
    assert!(matches!(r, Err(Error::JsonEncoder(_))));
}

#[test]
fn unparsable_body_is_decode_failure() {
    let r: Result<Option<ResponseData>, Error> =
        response_outcome(Reply::Success(Ok(String::from("pong"))));
    assert!(matches!(r, Err(Error::JsonDecoder(_))));
}

#[test]
fn empty_body_is_decode_failure() {
    let r: Result<Option<ResponseData>, Error> =
        response_outcome(Reply::Success(Ok(String::new())));
    assert!(matches!(r, Err(Error::JsonDecoder(_))));
}

#[test]
fn failed_body_read_is_io_failure() {
    let io = std::io::Error::new(std::io::ErrorKind::ConnectionAborted, "connection closed");
    let typed: Result<Option<ResponseData>, Error> = response_outcome(Reply::Success(Err(io)));
    assert!(matches!(typed, Err(Error::IoError(_))));
    let io = std::io::Error::new(std::io::ErrorKind::ConnectionAborted, "connection closed");
    let raw = text_outcome(Reply::Success(Err(io)));
    assert!(matches!(raw, Err(Error::IoError(_))));
}

#[test]
fn error_conversions_keep_the_class() {
    assert!(matches!(
        Error::from(hyper::Error::Method),
        Error::HttpClient(_)
    ));
    assert!(matches!(
        Error::from(rustc_serialize::json::EncoderError::BadHashmapKey),
        Error::JsonEncoder(_)
    ));
    assert!(matches!(
        Error::from(rustc_serialize::json::DecoderError::EOF),
        Error::JsonDecoder(_)
    ));
    let io = std::io::Error::new(std::io::ErrorKind::NotConnected, "no route");
    assert!(matches!(Error::from(io), Error::IoError(_)));
}
