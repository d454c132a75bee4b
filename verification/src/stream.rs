//! Gathering a request from the chunks read off the connection.
use vstd::prelude::*;
use vstd::utf8::{decode_utf8, valid_utf8};

verus! {

/// The error that `String::from_utf8` reports for bytes that are not UTF-8.
#[verifier::external_type_specification]
#[verifier::external_body]
pub struct ExFromUtf8Error(std::string::FromUtf8Error);

/// `String::from_utf8`. Trusted: it succeeds exactly on valid UTF-8, and then
/// holds the characters that the bytes encode.
#[verifier::external_body]
fn string_from_utf8(bytes: Vec<u8>) -> (r: Result<String, std::string::FromUtf8Error>)
    ensures
        r is Ok <==> valid_utf8(bytes@),
        r matches Ok(s) ==> s@ == decode_utf8(bytes@),
{
    String::from_utf8(bytes)
}

/// The size of the buffer that the connection is read into.
pub const CHUNK_SIZE: usize = 128;

/// Adds to `received` the first `bytes_read` bytes of the read buffer `buf`:
/// the bytes that the last read delivered. Returns whether to read on: only a
/// read that filled the buffer may be followed by more.
pub fn absorb_chunk(received: &mut Vec<u8>, buf: &Vec<u8>, bytes_read: usize) -> (keep_reading:
    bool)
    requires
        bytes_read <= buf@.len(),
    ensures
        final(received)@ == old(received)@ + buf@.take(bytes_read as int),
        keep_reading == (bytes_read == buf@.len()),
{
    let ghost start = received@;
    let mut i: usize = 0;
    while i < bytes_read
        invariant
            bytes_read <= buf@.len(),
            i <= bytes_read,
            received@ == start + buf@.take(i as int),
        decreases bytes_read - i,
    {
        received.push(buf[i]);
        i = i + 1;
        assert(buf@.take(i as int) == buf@.take(i - 1) + seq![buf@[i - 1]]);
    }
    bytes_read == buf.len()
}

/// The text of all the bytes `received` from the connection; `None` when they
/// are not valid UTF-8.
pub fn received_text(received: Vec<u8>) -> (r: Option<String>)
    ensures
        r is Some <==> valid_utf8(received@),
        r matches Some(text) ==> text@ == decode_utf8(received@),
{
    match string_from_utf8(received) {
        Ok(text) => Some(text),
        Err(_) => None,
    }
}

} // verus!
