//! The decisions of the host transfer client.
//!
//! The host hands data over in two steps: it reports a size, then fills a
//! buffer of that size. The calls themselves are made by the caller of
//! this library; what to make of each answer is decided here.

use vstd::prelude::*;
use vstd::utf8::{decode_utf8, encode_utf8_decode_utf8, valid_utf8};

verus! {

/// Which of the host's two documents is meant.
#[derive(Debug, Clone, Copy, PartialEq, Eq, Structural)]
pub enum SourceKind {
    Request,
    Manifest,
}

/// Why a document could not be fetched.
#[derive(Debug, Clone, Copy, PartialEq, Eq, Structural)]
pub enum FetchError {
    /// The host reported a size of zero.
    EmptySource,
    /// The host wrote nothing into a buffer that it had announced data for.
    ReadFailure,
    /// The bytes are not UTF-8 text.
    Encoding,
}

/// The bytes of the manifest among those of the buffer: the first
/// `written` of them, or all where the host claims to have written more
/// than the buffer holds.
pub open spec fn written_part(buffer: Seq<u8>, written: nat) -> Seq<u8> {
    if written <= buffer.len() {
        buffer.take(written as int)
    } else {
        buffer
    }
}

/// What the bytes of a document are as text.
pub open spec fn text_of_bytes(bytes: Seq<u8>) -> Result<Seq<char>, FetchError> {
    if valid_utf8(bytes) {
        Ok(decode_utf8(bytes))
    } else {
        Err(FetchError::Encoding)
    }
}

/// What a filled request buffer holds.
pub open spec fn request_text_of(buffer: Seq<u8>) -> Result<Seq<char>, FetchError> {
    text_of_bytes(buffer)
}

/// What a manifest buffer holds after a read that reported `written`
/// bytes. A short read is accepted; a read of nothing into a buffer that
/// has room is a failure.
pub open spec fn manifest_text_of(buffer: Seq<u8>, written: nat) -> Result<Seq<char>, FetchError> {
    if written == 0 && buffer.len() != 0 {
        Err(FetchError::ReadFailure)
    } else {
        text_of_bytes(written_part(buffer, written))
    }
}

/// Decides on a reported size: the length of the buffer to allocate, or
/// `EmptySource` for a size of zero.
pub fn buffer_len(size: u32) -> (r: Result<usize, FetchError>)
    ensures
        size == 0 ==> r == Err::<usize, _>(FetchError::EmptySource),
        size != 0 ==> r == Ok::<_, FetchError>(size as usize),
{
    if size == 0 {
        Err(FetchError::EmptySource)
    } else {
        Ok(size as usize)
    }
}

/// Validates fetched bytes as text.
pub fn decode_text(bytes: Vec<u8>) -> (r: Result<String, FetchError>)
    ensures
        r is Ok <==> text_of_bytes(bytes@) is Ok,
        r matches Ok(text) ==> text_of_bytes(bytes@) == Ok::<_, FetchError>(text@),
        r matches Err(e) ==> e == FetchError::Encoding,
{
    match String::from_utf8(bytes) {
        Ok(text) => {
            proof {
                encode_utf8_decode_utf8(text@);
            }
            Ok(text)
        },
        Err(_) => Err(FetchError::Encoding),
    }
}

/// Turns the filled request buffer into the request text.
pub fn request_text(buffer: Vec<u8>) -> (r: Result<String, FetchError>)
    ensures
        r is Ok <==> request_text_of(buffer@) is Ok,
        r matches Ok(text) ==> request_text_of(buffer@) == Ok::<_, FetchError>(text@),
        r matches Err(e) ==> request_text_of(buffer@) == Err::<Seq<char>, _>(e),
{
    decode_text(buffer)
}

/// Turns the manifest buffer and the number of bytes that the host
/// reported as written into the manifest text.
pub fn manifest_text(buffer: Vec<u8>, written: usize) -> (r: Result<String, FetchError>)
    ensures
        r is Ok <==> manifest_text_of(buffer@, written as nat) is Ok,
        r matches Ok(text) ==> manifest_text_of(buffer@, written as nat) == Ok::<_, FetchError>(
            text@,
        ),
        r matches Err(e) ==> manifest_text_of(buffer@, written as nat) == Err::<Seq<char>, _>(e),
{
    if written == 0 && buffer.len() != 0 {
        return Err(FetchError::ReadFailure);
    }
    let mut bytes = buffer;
    bytes.truncate(written);
    assert(bytes@ =~= written_part(buffer@, written as nat));
    decode_text(bytes)
}

} // verus!
