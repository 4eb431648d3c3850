use bincode::Options;
use rpc_frame::codec::{CodecError, Record};
use rpc_frame::frame::{parse_frame, SendError};
use rpc_frame::message::{build_error_payload, parse_response, ErrorPayload, Response};
use rpc_frame::request::{
    classify_send_failure, finish_send, prepare_response, Delivery, FailureClass,
};

const ONE_MIB: u32 = 1024 * 1024;

#[test]
fn small_record_round_trips_through_one_frame() {
    let body = Record { id: 7, name: "ok".to_string() };
    let mut buf: Vec<u8> = Vec::new();
    let r = prepare_response(&body, ONE_MIB, &mut buf);
    assert_eq!(r, Ok(Delivery::Body));
    let payload = parse_frame(&buf, ONE_MIB).unwrap();
    assert_eq!(payload[0], 0);
    let expected = bincode::DefaultOptions::new().serialize(&(7u64, "ok")).unwrap();
    assert_eq!(&payload[1..], &expected[..]);
    let resp = parse_response(payload).unwrap();
    assert_eq!(resp, Response::Success(Record { id: 7, name: "ok".to_string() }));
}

#[test]
fn oversized_body_becomes_one_small_error_frame() {
    // a ten-mebibyte name against a one-mebibyte limit
    let name = "x".repeat(10 * 1024 * 1024);
    let encoded_len: u64 =
        bincode::DefaultOptions::new().serialize(&(1u64, name.as_str())).unwrap().len() as u64;
    let body = Record { id: 1, name };
    let mut buf: Vec<u8> = Vec::new();
    let r = prepare_response(&body, ONE_MIB, &mut buf);
    assert_eq!(
        r,
        Ok(Delivery::Substituted(ErrorPayload::TooLarge {
            actual: encoded_len,
            limit: ONE_MIB as u64,
        }))
    );
    // the one frame written is the error frame; none of the oversized bytes
    assert_eq!(buf.len(), 4 + 17);
    let payload = parse_frame(&buf, ONE_MIB).unwrap();
    let resp = parse_response(payload).unwrap();
    assert_eq!(
        resp,
        Response::Failure(ErrorPayload::TooLarge {
            actual: encoded_len,
            limit: ONE_MIB as u64,
        })
    );
}

#[test]
fn failed_write_is_fatal_and_final() {
    let body = Record { id: 7, name: "ok".to_string() };
    let mut buf: Vec<u8> = Vec::new();
    let delivery = prepare_response(&body, ONE_MIB, &mut buf).unwrap();
    assert_eq!(finish_send(delivery, false), Err(SendError::WriteError));
}

#[test]
fn successful_write_reports_what_was_delivered() {
    assert_eq!(finish_send(Delivery::Body, true), Ok(Delivery::Body));
    let sub = Delivery::Substituted(ErrorPayload::Serialization);
    assert_eq!(finish_send(sub, true), Ok(sub));
}

#[test]
fn failure_classification_follows_the_taxonomy() {
    assert_eq!(
        classify_send_failure(SendError::WriteError, 0, 0),
        FailureClass::Fatal(SendError::WriteError)
    );
    assert_eq!(
        classify_send_failure(SendError::MessageTooLarge, 5, 3),
        FailureClass::Recoverable(ErrorPayload::TooLarge { actual: 5, limit: 3 })
    );
    assert_eq!(
        classify_send_failure(SendError::Serialization, 0, 3),
        FailureClass::Recoverable(ErrorPayload::Serialization)
    );
}

#[test]
fn error_payload_encoding_is_exact_and_round_trips() {
    let e = ErrorPayload::TooLarge { actual: 0x0102030405060708, limit: 9 };
    let p = build_error_payload(&e);
    assert_eq!(p, vec![1, 1, 2, 3, 4, 5, 6, 7, 8, 0, 0, 0, 0, 0, 0, 0, 9]);
    assert_eq!(parse_response(&p), Ok(Response::Failure(e)));

    let s = build_error_payload(&ErrorPayload::Serialization);
    assert_eq!(s, vec![2]);
    assert_eq!(parse_response(&s), Ok(Response::Failure(ErrorPayload::Serialization)));
}

#[test]
fn malformed_response_payloads_are_rejected() {
    assert_eq!(parse_response(&[]), Err(CodecError::Deserialization));
    // unknown tag
    assert_eq!(parse_response(&[9]), Err(CodecError::Deserialization));
    // a too-large report with a truncated field
    assert_eq!(parse_response(&[1, 2, 3]), Err(CodecError::Deserialization));
    // a serialization report with trailing bytes
    assert_eq!(parse_response(&[2, 0]), Err(CodecError::Deserialization));
    // a success tag followed by garbage
    assert_eq!(parse_response(&[0, 0xff, 0xff, 0xff]), Err(CodecError::Deserialization));
}

#[test]
fn limit_at_the_error_payload_floor_still_substitutes() {
    let body = Record { id: 1, name: "x".repeat(64) };
    let mut buf: Vec<u8> = Vec::new();
    let r = prepare_response(&body, 17, &mut buf);
    match r {
        Ok(Delivery::Substituted(ErrorPayload::TooLarge { actual, limit })) => {
            assert!(actual >= 64);
            assert_eq!(limit, 17);
        }
        other => panic!("expected a substituted oversize report, got {other:?}"),
    }
    assert_eq!(buf.len(), 4 + 17);
}

#[test]
fn tiny_limit_fails_preparation_without_touching_the_buffer() {
    let body = Record { id: 7, name: "ok".to_string() };
    let mut buf: Vec<u8> = vec![42];
    // below the largest error payload, so even the substitute cannot be framed
    let r = prepare_response(&body, 2, &mut buf);
    assert_eq!(r, Err(SendError::MessageTooLarge));
    assert_eq!(buf, vec![42]);
}
