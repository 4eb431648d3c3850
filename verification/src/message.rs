//! The payload layer: what a frame carries.
//!
//! A response payload starts with a one-byte tag. `TAG_OK` is followed by the
//! codec's encoding of the record; `TAG_TOO_LARGE` by two 8-byte big-endian
//! fields, the rejected encoding's length and the configured limit; and
//! `TAG_SERIALIZATION` by nothing. The two error forms make up the error
//! payload, the structured in-band report of a recoverable sending failure.

use vstd::prelude::*;

use crate::codec::{codec_bytes, codec_decoded, decode_record, CodecError, Record};
use crate::wire::{lemma_u64_be_round_trip, put_u64_be, read_u64_be, u64_be_bytes};

verus! {

/// Tag of a payload that carries a successfully encoded record.
pub const TAG_OK: u8 = 0;

/// Tag of an error payload reporting an encoding that exceeded the limit.
pub const TAG_TOO_LARGE: u8 = 1;

/// Tag of an error payload reporting a value the codec could not encode.
pub const TAG_SERIALIZATION: u8 = 2;

/// No error payload is longer than this many bytes.
pub const MAX_ERROR_PAYLOAD_LEN: usize = 17;

/// The structured description of a recoverable sending failure, delivered to
/// the peer in place of the intended response body. `TooLarge` reports the
/// length in bytes of the rejected encoding and the frame payload limit it
/// exceeded.
#[derive(Debug, Clone, Copy, PartialEq, Eq, Structural)]
pub enum ErrorPayload {
    TooLarge { actual: u64, limit: u64 },
    Serialization,
}

/// What a well-formed response payload conveys: the intended record, or an
/// error payload describing why it could not be sent.
#[derive(Debug, Clone, PartialEq, Eq)]
pub enum Response {
    Success(Record),
    Failure(ErrorPayload),
}

/// The payload that carries an encoded record.
pub open spec fn ok_payload(enc: Seq<u8>) -> Seq<u8> {
    seq![TAG_OK] + enc
}

/// The payload that carries an error payload.
pub open spec fn error_payload_bytes(e: ErrorPayload) -> Seq<u8> {
    match e {
        ErrorPayload::TooLarge { actual, limit } => seq![TAG_TOO_LARGE] + u64_be_bytes(actual)
            + u64_be_bytes(limit),
        ErrorPayload::Serialization => seq![TAG_SERIALIZATION],
    }
}

/// An error payload is always small: it fits every frame limit of at least
/// `MAX_ERROR_PAYLOAD_LEN` bytes.
pub proof fn lemma_error_payload_small(e: ErrorPayload)
    ensures
        1 <= error_payload_bytes(e).len() <= MAX_ERROR_PAYLOAD_LEN,
{
}

/// Builds the payload that carries the encoded record `enc`.
pub fn build_ok_payload(enc: &Vec<u8>) -> (p: Vec<u8>)
    ensures
        p@ == ok_payload(enc@),
{
    let mut p: Vec<u8> = Vec::new();
    p.push(TAG_OK);
    let mut i: usize = 0;
    while i < enc.len()
        invariant
            i <= enc@.len(),
            p@ == seq![TAG_OK] + enc@.subrange(0, i as int),
        decreases enc@.len() - i,
    {
        p.push(enc[i]);
        assert(p@ =~= seq![TAG_OK] + enc@.subrange(0, i as int + 1));
        i = i + 1;
    }
    assert(p@ =~= ok_payload(enc@));
    p
}

/// Builds the error payload for `e`.
pub fn build_error_payload(e: &ErrorPayload) -> (p: Vec<u8>)
    ensures
        p@ == error_payload_bytes(*e),
{
    let mut p: Vec<u8> = Vec::new();
    match e {
        ErrorPayload::TooLarge { actual, limit } => {
            p.push(TAG_TOO_LARGE);
            put_u64_be(&mut p, *actual);
            put_u64_be(&mut p, *limit);
            assert(p@ =~= error_payload_bytes(*e));
        },
        ErrorPayload::Serialization => {
            p.push(TAG_SERIALIZATION);
            assert(p@ =~= error_payload_bytes(*e));
        },
    }
    p
}

/// Parses a response payload back into what it conveys: the record of a
/// success payload, or the error payload of a failure report. Anything else
/// is malformed.
pub fn parse_response(payload: &[u8]) -> (r: Result<Response, CodecError>)
    ensures
        forall|id: u64, name: Seq<char>|
            payload@ == ok_payload(codec_bytes(id, name)) ==> (r matches Ok(
                Response::Success(rec),
            ) && rec.id == id && rec.name@ == name),
        forall|e: ErrorPayload|
            payload@ == error_payload_bytes(e) ==> r == Ok::<Response, CodecError>(
                Response::Failure(e),
            ),
        r matches Ok(Response::Failure(e)) ==> payload@ == error_payload_bytes(e),
        r matches Ok(Response::Success(rec)) ==> payload@.len() >= 1 && payload@[0] == TAG_OK
            && codec_decoded(payload@.subrange(1, payload@.len() as int)) == Some(
            (rec.id, rec.name@),
        ),
        codec_decoded(payload@.subrange(1, payload@.len() as int)) matches Some(p) ==> ((
        payload@.len() >= 1 && payload@[0] == TAG_OK) ==> (r matches Ok(
            Response::Success(rec),
        ) && rec.id == p.0 && rec.name@ == p.1)),
        r matches Err(c) ==> c == CodecError::Deserialization,
{
    if payload.len() == 0 {
        return Err(CodecError::Deserialization);
    }
    let tag: u8 = payload[0];
    if tag == TAG_OK {
        let rest = vstd::slice::slice_subrange(payload, 1, payload.len());
        proof {
            assert forall|id: u64, name: Seq<char>|
                payload@ == ok_payload(codec_bytes(id, name)) implies rest@ == codec_bytes(
                id,
                name,
            ) by {
                assert(rest@ =~= codec_bytes(id, name));
            }
        }
        match decode_record(rest) {
            Ok(rec) => Ok(Response::Success(rec)),
            Err(_) => Err(CodecError::Deserialization),
        }
    } else if tag == TAG_TOO_LARGE {
        if payload.len() != 17 {
            return Err(CodecError::Deserialization);
        }
        let actual: u64 = read_u64_be(payload, 1);
        let limit: u64 = read_u64_be(payload, 9);
        let e = ErrorPayload::TooLarge { actual, limit };
        proof {
            crate::wire::lemma_u64_be_inverse(payload@.subrange(1, 9));
            crate::wire::lemma_u64_be_inverse(payload@.subrange(9, 17));
            assert(payload@ =~= error_payload_bytes(e));
            assert forall|e2: ErrorPayload| payload@ == error_payload_bytes(e2) implies e2
                == e by {
                if let ErrorPayload::TooLarge { actual: a, limit: l } = e2 {
                    assert(payload@.subrange(1, 9) =~= u64_be_bytes(a));
                    assert(payload@.subrange(9, 17) =~= u64_be_bytes(l));
                    lemma_u64_be_round_trip(a);
                    lemma_u64_be_round_trip(l);
                } else {
                    assert(error_payload_bytes(e2).len() == 1);
                }
            }
        }
        Ok(Response::Failure(e))
    } else if tag == TAG_SERIALIZATION {
        if payload.len() != 1 {
            return Err(CodecError::Deserialization);
        }
        proof {
            assert(payload@ =~= error_payload_bytes(ErrorPayload::Serialization));
        }
        Ok(Response::Failure(ErrorPayload::Serialization))
    } else {
        Err(CodecError::Deserialization)
    }
}

} // verus!
