//! Message framing and request/response dispatch for an RPC protocol that runs
//! over a reliable, ordered byte stream.
//!
//! A typed value travels as one self-delimited frame: a 4-byte big-endian
//! length prefix followed by exactly that many payload bytes. A response
//! payload starts with a one-byte tag that distinguishes a success body
//! (the codec's encoding of the value) from a structured error payload that
//! reports a recoverable sending failure to the peer.
//!
//! Failures are split in two: transport failures (a broken stream write or
//! read) are fatal and propagate to the caller unchanged, while recoverable
//! failures (an oversized or unencodable payload) are absorbed and sent to the
//! peer in-band as an error payload. The stream I/O itself lives outside this
//! library; the functions here build, check and classify, and their callers
//! perform the reads and writes.

pub mod codec;
pub mod frame;
pub mod message;
pub mod request;
pub mod wire;
