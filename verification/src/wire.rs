//! Big-endian byte-order helpers for the fixed-width integers of the wire
//! format: the 4-byte frame length prefix and the 8-byte fields of an error
//! payload.

use vstd::prelude::*;

verus! {

/// The four big-endian bytes of a 32-bit value.
pub open spec fn u32_be_bytes(n: u32) -> Seq<u8> {
    seq![(n >> 24) as u8, (n >> 16) as u8, (n >> 8) as u8, n as u8]
}

/// The 32-bit value read from four big-endian bytes.
pub open spec fn u32_of_be(b0: u8, b1: u8, b2: u8, b3: u8) -> u32 {
    (b0 as u32) << 24 | (b1 as u32) << 16 | (b2 as u32) << 8 | (b3 as u32)
}

/// The eight big-endian bytes of a 64-bit value.
pub open spec fn u64_be_bytes(n: u64) -> Seq<u8> {
    seq![
        (n >> 56) as u8,
        (n >> 48) as u8,
        (n >> 40) as u8,
        (n >> 32) as u8,
        (n >> 24) as u8,
        (n >> 16) as u8,
        (n >> 8) as u8,
        n as u8,
    ]
}

/// The 64-bit value read from eight big-endian bytes.
pub open spec fn u64_of_be(b: Seq<u8>) -> u64
    recommends
        b.len() == 8,
{
    (b[0] as u64) << 56 | (b[1] as u64) << 48 | (b[2] as u64) << 40 | (b[3] as u64) << 32
        | (b[4] as u64) << 24 | (b[5] as u64) << 16 | (b[6] as u64) << 8 | (b[7] as u64)
}

/// Reading back the four big-endian bytes of a value yields the value.
pub proof fn lemma_u32_be_round_trip(n: u32)
    ensures
        u32_of_be(
            u32_be_bytes(n)[0],
            u32_be_bytes(n)[1],
            u32_be_bytes(n)[2],
            u32_be_bytes(n)[3],
        ) == n,
{
    assert(((n >> 24) as u8 as u32) << 24 | ((n >> 16) as u8 as u32) << 16 | ((n >> 8) as u8
        as u32) << 8 | (n as u8 as u32) == n) by (bit_vector);
}

/// Reading back the eight big-endian bytes of a value yields the value.
pub proof fn lemma_u64_be_round_trip(n: u64)
    ensures
        u64_of_be(u64_be_bytes(n)) == n,
{
    assert(((n >> 56) as u8 as u64) << 56 | ((n >> 48) as u8 as u64) << 48 | ((n >> 40) as u8
        as u64) << 40 | ((n >> 32) as u8 as u64) << 32 | ((n >> 24) as u8 as u64) << 24 | ((n
        >> 16) as u8 as u64) << 16 | ((n >> 8) as u8 as u64) << 8 | (n as u8 as u64) == n)
        by (bit_vector);
}

/// Rebuilding the eight big-endian bytes of the value they spell yields the
/// same bytes.
pub proof fn lemma_u64_be_inverse(b: Seq<u8>)
    requires
        b.len() == 8,
    ensures
        u64_be_bytes(u64_of_be(b)) == b,
{
    let b0 = b[0];
    let b1 = b[1];
    let b2 = b[2];
    let b3 = b[3];
    let b4 = b[4];
    let b5 = b[5];
    let b6 = b[6];
    let b7 = b[7];
    let n = u64_of_be(b);
    assert(n == (b0 as u64) << 56 | (b1 as u64) << 48 | (b2 as u64) << 40 | (b3 as u64) << 32
        | (b4 as u64) << 24 | (b5 as u64) << 16 | (b6 as u64) << 8 | (b7 as u64));
    assert({
        let m = (b0 as u64) << 56 | (b1 as u64) << 48 | (b2 as u64) << 40 | (b3 as u64) << 32
            | (b4 as u64) << 24 | (b5 as u64) << 16 | (b6 as u64) << 8 | (b7 as u64);
        (m >> 56) as u8 == b0 && (m >> 48) as u8 == b1 && (m >> 40) as u8 == b2 && (m >> 32)
            as u8 == b3 && (m >> 24) as u8 == b4 && (m >> 16) as u8 == b5 && (m >> 8) as u8
            == b6 && m as u8 == b7
    }) by (bit_vector);
    assert(u64_be_bytes(n) =~= b);
}

/// Appends the four big-endian bytes of `n` to `buf`.
pub fn put_u32_be(buf: &mut Vec<u8>, n: u32)
    ensures
        final(buf)@ == old(buf)@ + u32_be_bytes(n),
{
    buf.push((n >> 24) as u8);
    buf.push((n >> 16) as u8);
    buf.push((n >> 8) as u8);
    buf.push(n as u8);
    assert(buf@ =~= old(buf)@ + u32_be_bytes(n));
}

/// Appends the eight big-endian bytes of `n` to `buf`.
pub fn put_u64_be(buf: &mut Vec<u8>, n: u64)
    ensures
        final(buf)@ == old(buf)@ + u64_be_bytes(n),
{
    buf.push((n >> 56) as u8);
    buf.push((n >> 48) as u8);
    buf.push((n >> 40) as u8);
    buf.push((n >> 32) as u8);
    buf.push((n >> 24) as u8);
    buf.push((n >> 16) as u8);
    buf.push((n >> 8) as u8);
    buf.push(n as u8);
    assert(buf@ =~= old(buf)@ + u64_be_bytes(n));
}

/// Reads the 64-bit big-endian value stored at offset `at` of `b`.
pub fn read_u64_be(b: &[u8], at: usize) -> (n: u64)
    requires
        at + 8 <= b@.len(),
    ensures
        n == u64_of_be(b@.subrange(at as int, at + 8)),
{
    let n: u64 = (b[at] as u64) << 56 | (b[at + 1] as u64) << 48 | (b[at + 2] as u64) << 40 | (b[at
        + 3] as u64) << 32 | (b[at + 4] as u64) << 24 | (b[at + 5] as u64) << 16 | (b[at + 6]
        as u64) << 8 | (b[at + 7] as u64);
    assert(b@.subrange(at as int, at + 8)[0] == b@[at as int]);
    n
}

} // verus!
