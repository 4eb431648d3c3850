//! The frame transport: one logical message travels as one frame, a 4-byte
//! big-endian length prefix followed by exactly that many payload bytes.
//!
//! Building a frame checks the payload against the configured limit before a
//! single byte is produced; checking an inbound header rejects an oversized
//! declared length before any payload byte is read or buffered.

use vstd::prelude::*;

use crate::wire::{lemma_u32_be_round_trip, put_u32_be, u32_be_bytes, u32_of_be};

verus! {

/// The width in bytes of the frame length prefix.
pub const HEADER_LEN: usize = 4;

/// A failure while sending a frame. `WriteError` is fatal for the stream;
/// the other two arise before any byte reaches the stream and are
/// recoverable.
#[derive(Debug, Clone, Copy, PartialEq, Eq, Structural)]
pub enum SendError {
    MessageTooLarge,
    Serialization,
    WriteError,
}

/// A failure while receiving a frame: the stream read failed or delivered
/// too few bytes, or the peer declared a frame longer than the configured
/// maximum.
#[derive(Debug, Clone, Copy, PartialEq, Eq, Structural)]
pub enum RecvError {
    ReadError,
    FrameTooLarge,
}

/// The bytes of the frame that carries `payload`.
pub open spec fn frame_bytes(payload: Seq<u8>) -> Seq<u8>
    recommends
        payload.len() <= u32::MAX,
{
    u32_be_bytes(payload.len() as u32) + payload
}

/// The length a frame header declares.
pub open spec fn header_value(hdr: Seq<u8>) -> u32
    recommends
        hdr.len() == 4,
{
    u32_of_be(hdr[0], hdr[1], hdr[2], hdr[3])
}

/// The frame for a payload starts with a header that declares the payload's
/// length, followed by the payload itself: decoding a frame inverts building
/// it.
pub proof fn lemma_frame_round_trip(payload: Seq<u8>)
    requires
        payload.len() <= u32::MAX,
    ensures
        frame_bytes(payload).len() == 4 + payload.len(),
        header_value(frame_bytes(payload).subrange(0, 4)) == payload.len(),
        frame_bytes(payload).subrange(4, frame_bytes(payload).len() as int) == payload,
{
    let n = payload.len() as u32;
    lemma_u32_be_round_trip(n);
    assert(frame_bytes(payload).subrange(0, 4) =~= u32_be_bytes(n));
    assert(frame_bytes(payload).subrange(4, frame_bytes(payload).len() as int) =~= payload);
}

/// Clears `buf` and fills it with the frame for `payload`, unless the payload
/// exceeds `limit`, in which case nothing is written and the send fails with
/// `MessageTooLarge` before any byte could reach the stream.
pub fn fill_frame(buf: &mut Vec<u8>, payload: &[u8], limit: u32) -> (r: Result<(), SendError>)
    ensures
        r matches Ok(()) <==> payload@.len() <= limit,
        r matches Ok(()) ==> final(buf)@ == frame_bytes(payload@),
        r matches Err(e) ==> e == SendError::MessageTooLarge && final(buf)@ == old(buf)@,
{
    if payload.len() as u64 > limit as u64 {
        return Err(SendError::MessageTooLarge);
    }
    let n: u32 = payload.len() as u32;
    buf.clear();
    put_u32_be(buf, n);
    let mut i: usize = 0;
    while i < payload.len()
        invariant
            i <= payload@.len(),
            payload@.len() <= u32::MAX,
            buf@ == u32_be_bytes(payload@.len() as u32) + payload@.subrange(0, i as int),
        decreases payload@.len() - i,
    {
        buf.push(payload[i]);
        assert(buf@ =~= u32_be_bytes(payload@.len() as u32) + payload@.subrange(
            0,
            i as int + 1,
        ));
        i = i + 1;
    }
    assert(buf@ =~= frame_bytes(payload@));
    Ok(())
}

/// Decides from the four header bytes alone whether the declared frame may be
/// received: the declared length is returned if it is within `limit`, and the
/// frame is rejected as `FrameTooLarge` otherwise, before any payload byte is
/// read or buffered.
pub fn check_header(hdr: &[u8], limit: u32) -> (r: Result<u32, RecvError>)
    requires
        hdr@.len() == 4,
    ensures
        r == if header_value(hdr@) <= limit {
            Ok::<u32, RecvError>(header_value(hdr@))
        } else {
            Err::<u32, RecvError>(RecvError::FrameTooLarge)
        },
{
    let n: u32 = (hdr[0] as u32) << 24 | (hdr[1] as u32) << 16 | (hdr[2] as u32) << 8 | (hdr[3]
        as u32);
    if n <= limit {
        Ok(n)
    } else {
        Err(RecvError::FrameTooLarge)
    }
}

/// Splits a complete frame held in `buf` into its payload. An oversized
/// declared length is rejected before the payload bytes are looked at; a
/// buffer that is shorter than a header, or whose length disagrees with the
/// declared one, is a short read.
pub fn parse_frame<'a>(buf: &'a [u8], limit: u32) -> (r: Result<&'a [u8], RecvError>)
    ensures
        r matches Ok(p) ==> buf@.len() >= 4 && header_value(buf@.subrange(0, 4)) <= limit
            && buf@.len() == 4 + header_value(buf@.subrange(0, 4)) && p@ == buf@.subrange(
            4,
            buf@.len() as int,
        ),
        r == Err::<&[u8], _>(RecvError::FrameTooLarge) <==> buf@.len() >= 4 && header_value(
            buf@.subrange(0, 4),
        ) > limit,
        r == Err::<&[u8], _>(RecvError::ReadError) <==> buf@.len() < 4 || (header_value(
            buf@.subrange(0, 4),
        ) <= limit && buf@.len() != 4 + header_value(buf@.subrange(0, 4))),
{
    if buf.len() < HEADER_LEN {
        return Err(RecvError::ReadError);
    }
    let hdr = vstd::slice::slice_subrange(buf, 0, HEADER_LEN);
    let n: u32 = match check_header(hdr, limit) {
        Ok(n) => n,
        Err(e) => {
            return Err(e);
        },
    };
    if buf.len() - 4 != n as usize {
        return Err(RecvError::ReadError);
    }
    Ok(vstd::slice::slice_subrange(buf, 4, buf.len()))
}

} // verus!
