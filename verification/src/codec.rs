//! The codec adapter: turns a record into bytes and back.
//!
//! The concrete codec is bincode with its default options (variable-length
//! integer encoding, little-endian, no size limit, trailing bytes rejected).
//! Its encoding is named by the uninterpreted function [`codec_bytes`]; the
//! two trusted wrappers below relate the calls to that name.

use vstd::prelude::*;

use bincode::Options;

verus! {

/// A typed application value carried by a frame: the record a request asks
/// for and a response returns.
#[derive(Debug, Clone, PartialEq, Eq)]
pub struct Record {
    pub id: u64,
    pub name: String,
}

/// A failure of the codec adapter: the codec could not encode the value, or
/// the given bytes are not a well-formed encoding.
#[derive(Debug, Clone, Copy, PartialEq, Eq, Structural)]
pub enum CodecError {
    Serialization,
    Deserialization,
}

/// The codec's encoding of a record with the given fields. The encoding is a
/// function of the fields alone; nothing more is assumed of it.
pub uninterp spec fn codec_bytes(id: u64, name: Seq<char>) -> Seq<u8>;

/// What the codec decodes the given bytes to: the fields of a record, or
/// nothing where the bytes are not acceptable to it. The result is a function
/// of the bytes alone.
pub uninterp spec fn codec_decoded(bytes: Seq<u8>) -> Option<(u64, Seq<char>)>;

/// Relies on bincode's `Options::serialize` with `DefaultOptions`: the
/// encoding of the pair `(id, name)` is deterministic, a function of the two
/// fields alone, and the call cannot fail for this pair — integers and
/// strings have no failing serialize path and every byte goes to the
/// infallible `Vec` writer.
#[verifier::external_body]
pub(crate) fn encode_record(rec: &Record) -> (r: Result<Vec<u8>, CodecError>)
    ensures
        r matches Ok(b) ==> b@ == codec_bytes(rec.id, rec.name@),
        r matches Ok(_),
{
    bincode::DefaultOptions::new().serialize(&(rec.id, &rec.name)).map_err(
        |_| CodecError::Serialization,
    )
}

/// Relies on bincode's `Options::deserialize` with `DefaultOptions`: it is
/// deterministic, a function of the input bytes alone (its full outcome is
/// named by [`codec_decoded`]); it inverts `Options::serialize` (the options
/// reject trailing bytes, so a full encoding deserializes to exactly the
/// encoded pair); and it returns an error rather than panicking on bytes that
/// are not acceptable to it.
#[verifier::external_body]
pub(crate) fn decode_record(bytes: &[u8]) -> (r: Result<Record, CodecError>)
    ensures
        r matches Ok(rec) ==> codec_decoded(bytes@) == Some((rec.id, rec.name@)),
        r matches Ok(rec) ==> (forall|id: u64, name: Seq<char>|
            bytes@ == codec_bytes(id, name) ==> rec.id == id && rec.name@ == name),
        r matches Err(e) ==> e == CodecError::Deserialization && codec_decoded(bytes@)
            is None && (forall|id: u64, name: Seq<char>| bytes@ != codec_bytes(id, name)),
{
    match bincode::DefaultOptions::new().deserialize::<(u64, String)>(bytes) {
        Ok((id, name)) => Ok(Record { id, name }),
        Err(_) => Err(CodecError::Deserialization),
    }
}

} // verus!
