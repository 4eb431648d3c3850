//! Request argument parsing and the response dispatcher.
//!
//! Sending a response must never let a recoverable failure silently drop the
//! stream: an oversized or unencodable body is replaced, exactly once, by an
//! error payload that reports the failure to the peer, while a broken stream
//! write propagates to the caller unchanged. [`prepare_response`] performs
//! everything up to the single stream write (encoding, the size check, and
//! the one permitted substitution) and leaves the chosen frame in the
//! caller's buffer; [`finish_send`] settles the outcome of that one write.

use vstd::prelude::*;

use crate::codec::{codec_bytes, codec_decoded, decode_record, encode_record, CodecError, Record};
use crate::frame::{
    fill_frame, frame_bytes, header_value, lemma_frame_round_trip, SendError,
};
use crate::message::{
    build_error_payload, build_ok_payload, error_payload_bytes, lemma_error_payload_small,
    ok_payload, ErrorPayload, MAX_ERROR_PAYLOAD_LEN,
};

verus! {

/// What a successful send delivered to the peer: the intended body, or an
/// error payload substituted for it after a recoverable failure.
#[derive(Debug, Clone, Copy, PartialEq, Eq, Structural)]
pub enum Delivery {
    Body,
    Substituted(ErrorPayload),
}

/// How a sending failure propagates: a fatal failure is returned to the
/// caller unchanged, a recoverable one is absorbed and reported to the peer
/// as the given error payload.
#[derive(Debug, Clone, Copy, PartialEq, Eq, Structural)]
pub enum FailureClass {
    Fatal(SendError),
    Recoverable(ErrorPayload),
}

/// The frame that carries a record with the given fields as its body.
pub open spec fn body_frame(id: u64, name: Seq<char>) -> Seq<u8> {
    frame_bytes(ok_payload(codec_bytes(id, name)))
}

/// Whether the payload carrying a record with the given fields stays within
/// the frame payload limit.
pub open spec fn body_fits(id: u64, name: Seq<char>, limit: u32) -> bool {
    1 + codec_bytes(id, name).len() <= limit
}

/// Round trip of a response body that fits the limit: the frame prepared for
/// it decodes, at the frame layer, back to exactly the payload that carries
/// the body's encoding — the payload that `parse_response` maps back to the
/// body itself.
pub proof fn lemma_body_frame_round_trip(id: u64, name: Seq<char>, limit: u32)
    requires
        body_fits(id, name, limit),
    ensures
        header_value(body_frame(id, name).subrange(0, 4)) <= limit,
        body_frame(id, name).len() == 4 + header_value(body_frame(id, name).subrange(0, 4)),
        body_frame(id, name).subrange(4, body_frame(id, name).len() as int) == ok_payload(
            codec_bytes(id, name),
        ),
{
    lemma_frame_round_trip(ok_payload(codec_bytes(id, name)));
}

/// A substituted error payload always travels: under any limit that admits an
/// error payload at all, its frame decodes, at the frame layer, back to
/// exactly the error payload bytes — which `parse_response` maps back to the
/// error payload itself.
pub proof fn lemma_error_frame_round_trip(e: ErrorPayload, limit: u32)
    requires
        MAX_ERROR_PAYLOAD_LEN <= limit,
    ensures
        error_payload_bytes(e).len() <= limit,
        header_value(frame_bytes(error_payload_bytes(e)).subrange(0, 4)) <= limit,
        frame_bytes(error_payload_bytes(e)).len() == 4 + header_value(
            frame_bytes(error_payload_bytes(e)).subrange(0, 4),
        ),
        frame_bytes(error_payload_bytes(e)).subrange(
            4,
            frame_bytes(error_payload_bytes(e)).len() as int,
        ) == error_payload_bytes(e),
{
    lemma_error_payload_small(e);
    lemma_frame_round_trip(error_payload_bytes(e));
}

/// Classifies a sending failure: a stream write failure is fatal and is never
/// followed by another write, while an oversized or unencodable payload is
/// recoverable and becomes an error payload for the peer. `attempted` is the
/// length in bytes of the rejected encoding, reported to the peer in the
/// oversize case.
pub fn classify_send_failure(e: SendError, attempted: u64, limit: u64) -> (c: FailureClass)
    ensures
        e == SendError::WriteError ==> c == FailureClass::Fatal(SendError::WriteError),
        e == SendError::MessageTooLarge ==> c == FailureClass::Recoverable(
            ErrorPayload::TooLarge { actual: attempted, limit },
        ),
        e == SendError::Serialization ==> c == FailureClass::Recoverable(
            ErrorPayload::Serialization,
        ),
{
    match e {
        SendError::WriteError => FailureClass::Fatal(SendError::WriteError),
        SendError::MessageTooLarge => FailureClass::Recoverable(
            ErrorPayload::TooLarge { actual: attempted, limit },
        ),
        SendError::Serialization => FailureClass::Recoverable(ErrorPayload::Serialization),
    }
}

/// Prepares the one frame that a response sends: a body that fits the limit
/// is always encoded and framed as it is, and an oversized body is replaced,
/// exactly once, by the error payload reporting its size. On success the
/// frame to write stands complete in `buf`; not one byte of an oversized body
/// is ever framed. Only when even the substituted error payload cannot fit
/// the limit does preparation fail, and then the buffer is untouched.
pub fn prepare_response(body: &Record, limit: u32, buf: &mut Vec<u8>) -> (r: Result<
    Delivery,
    SendError,
>)
    ensures
        body_fits(body.id, body.name@, limit) ==> r == Ok::<Delivery, SendError>(Delivery::Body),
        r == Ok::<Delivery, SendError>(Delivery::Body) ==> body_fits(body.id, body.name@, limit)
            && final(buf)@ == body_frame(body.id, body.name@),
        r matches Ok(Delivery::Substituted(e)) ==> (e matches ErrorPayload::TooLarge { .. })
            && final(buf)@ == frame_bytes(error_payload_bytes(e)) && error_payload_bytes(
            e,
        ).len() <= limit,
        r matches Ok(Delivery::Substituted(ErrorPayload::TooLarge { actual, limit: l }))
            ==> actual == codec_bytes(body.id, body.name@).len() && l == limit && !body_fits(
            body.id,
            body.name@,
            limit,
        ),
        !body_fits(body.id, body.name@, limit) && MAX_ERROR_PAYLOAD_LEN <= limit ==> (r matches
            Ok(Delivery::Substituted(_))),
        MAX_ERROR_PAYLOAD_LEN <= limit ==> r matches Ok(_),
        !body_fits(body.id, body.name@, limit) && limit < MAX_ERROR_PAYLOAD_LEN ==> (r matches
            Err(_)),
        r matches Err(e) ==> e == SendError::MessageTooLarge && limit < MAX_ERROR_PAYLOAD_LEN
            && !body_fits(body.id, body.name@, limit) && final(buf)@ == old(buf)@,
{
    let first: SendError;
    let attempted: u64;
    match encode_record(body) {
        Ok(b) => {
            if (b.len() as u64) < (limit as u64) {
                let payload = build_ok_payload(&b);
                match fill_frame(buf, payload.as_slice(), limit) {
                    Ok(()) => {
                        return Ok(Delivery::Body);
                    },
                    Err(e) => {
                        // the payload was checked against the limit above
                        proof {
                            assert(false);
                        }
                        return Err(e);
                    },
                }
            }
            first = SendError::MessageTooLarge;
            attempted = b.len() as u64;
        },
        Err(_) => {
            first = SendError::Serialization;
            attempted = 0;
        },
    }
    match classify_send_failure(first, attempted, limit as u64) {
        FailureClass::Fatal(e) => Err(e),
        FailureClass::Recoverable(ep) => {
            let payload = build_error_payload(&ep);
            proof {
                lemma_error_payload_small(ep);
            }
            match fill_frame(buf, payload.as_slice(), limit) {
                Ok(()) => Ok(Delivery::Substituted(ep)),
                Err(e) => Err(e),
            }
        },
    }
}

/// Settles the single write attempt of a prepared response. A successful
/// write delivered the frame; a failed write is fatal, surfaces as
/// `WriteError`, and is never followed by a second write or a substitution.
pub fn finish_send(delivery: Delivery, write_ok: bool) -> (r: Result<Delivery, SendError>)
    ensures
        write_ok ==> r == Ok::<Delivery, SendError>(delivery),
        !write_ok ==> r == Err::<Delivery, SendError>(SendError::WriteError),
{
    if write_ok {
        Ok(delivery)
    } else {
        Err(SendError::WriteError)
    }
}

/// Parses the arguments of a request: the inbound bytes must be exactly the
/// codec's encoding of one record. Malformed or truncated bytes are reported
/// to the caller as a deserialization failure, never a panic. The outcome is
/// a function of the bytes alone: it follows what the codec decodes them to.
pub fn parse_args(args: &[u8]) -> (r: Result<Record, CodecError>)
    ensures
        r matches Ok(rec) ==> codec_decoded(args@) == Some((rec.id, rec.name@)),
        r matches Ok(rec) ==> (forall|id: u64, name: Seq<char>|
            args@ == codec_bytes(id, name) ==> rec.id == id && rec.name@ == name),
        r matches Err(e) ==> e == CodecError::Deserialization && codec_decoded(args@) is None
            && (forall|id: u64, name: Seq<char>| args@ != codec_bytes(id, name)),
{
    decode_record(args)
}

} // verus!
