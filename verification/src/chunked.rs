//! Decoding of bodies in chunked transfer encoding, and of bytes into text.
//!
//! A stream of chunks is decoded by the crate `chunked_transfer`. What it
//! returns has a name here, and the verified code speaks of that name. The
//! assembler gathers the bytes of the chunks itself as it reads them, and a
//! body in chunks is delivered only where the decoder read the same bytes.

use crate::types::Error;
use crate::utils::text_as_body;
use vstd::prelude::*;
use vstd::utf8::{decode_utf8, valid_utf8};

verus! {

/// What `chunked_transfer::Decoder` reads out of a stream of chunks when it
/// is read to the end: the payload, or nothing where it reports an error.
pub uninterp spec fn chunked_payload(encoded: Seq<u8>) -> Option<Seq<u8>>;

/// The bytes of an optional vector.
pub open spec fn opt_bytes(o: Option<Vec<u8>>) -> Option<Seq<u8>> {
    match o {
        Some(v) => Some(v@),
        None => None,
    }
}

/// Reads a stream of chunks to its end with `chunked_transfer::Decoder`, on
/// the bytes in memory. The result is the payload that the decoder hands
/// out, or nothing where the decoder reports an error. It is a function of
/// the bytes alone, and the contract gives it its name.
#[verifier::external_body]
fn decode_chunks(encoded: &Vec<u8>) -> (r: Option<Vec<u8>>)
    ensures
        opt_bytes(r) == chunked_payload(encoded@),
{
    let mut decoder = chunked_transfer::Decoder::new(encoded.as_slice());
    let mut payload: Vec<u8> = Vec::new();
    match std::io::Read::read_to_end(&mut decoder, &mut payload) {
        Ok(_) => Some(payload),
        Err(_) => None,
    }
}

/// `String::from_utf8` on the given bytes: the text that the bytes encode
/// in UTF-8, or nothing where they are no UTF-8.
#[verifier::external_body]
fn string_from_utf8(bytes: Vec<u8>) -> (r: Option<String>)
    ensures
        r is Some <==> valid_utf8(bytes@),
        r matches Some(s) ==> s@ == decode_utf8(bytes@),
{
    match String::from_utf8(bytes) {
        Ok(s) => Some(s),
        Err(_) => None,
    }
}

/// The text that bytes encode in UTF-8, where they do.
pub open spec fn text_of_bytes(bytes: Seq<u8>) -> Option<Seq<char>> {
    if valid_utf8(bytes) {
        Some(decode_utf8(bytes))
    } else {
        None
    }
}

/// The text that the bytes encode in UTF-8, or nothing where they are no
/// UTF-8.
pub fn decode_text(bytes: Vec<u8>) -> (r: Option<String>)
    ensures
        crate::structs::opt_text(r) == text_of_bytes(bytes@),
{
    string_from_utf8(bytes)
}

/// The body that a payload stands for: the text of the payload, no body
/// where the text is empty; `MalformedChunk` where there is no payload,
/// `MalformedBody` where the payload is no UTF-8.
pub open spec fn body_of_payload(payload: Option<Seq<u8>>) -> Result<Option<Seq<char>>, Error> {
    match payload {
        None => Err(Error::MalformedChunk),
        Some(bytes) => match text_of_bytes(bytes) {
            None => Err(Error::MalformedBody),
            Some(text) => Ok(text_as_body(text)),
        },
    }
}

/// The body that a decoded payload stands for.
pub fn body_from_payload(payload: Option<Vec<u8>>) -> (r: Result<Option<String>, Error>)
    ensures
        match r {
            Ok(b) => body_of_payload(opt_bytes(payload)) == Ok::<Option<Seq<char>>, Error>(
                crate::structs::opt_text(b),
            ),
            Err(e) => body_of_payload(opt_bytes(payload)) == Err::<Option<Seq<char>>, Error>(e),
        },
{
    match payload {
        None => Err(Error::MalformedChunk),
        Some(bytes) => match decode_text(bytes) {
            None => Err(Error::MalformedBody),
            Some(text) => {
                if text.as_str().is_empty() {
                    Ok(None)
                } else {
                    Ok(Some(text))
                }
            },
        },
    }
}

/// The payload that the decoder reads out of a stream of chunks, or
/// nothing where it reports an error.
pub fn chunk_payload(encoded: &Vec<u8>) -> (r: Option<Vec<u8>>)
    ensures
        opt_bytes(r) == chunked_payload(encoded@),
{
    decode_chunks(encoded)
}

/// The body of a response that came in chunks, given the bytes of the
/// chunks as they were gathered and the payload that the decoder read out of
/// the stream: the text of the gathered bytes where the decoder read the
/// same bytes, and `MalformedChunk` where it read other bytes or none.
pub open spec fn body_of_chunks(gathered: Seq<u8>, decoded: Option<Seq<u8>>) -> Result<
    Option<Seq<char>>,
    Error,
> {
    match decoded {
        Some(payload) if payload == gathered => body_of_payload(Some(gathered)),
        _ => Err(Error::MalformedChunk),
    }
}

/// Whether two vectors hold the same bytes.
fn same_bytes(a: &Vec<u8>, b: &Vec<u8>) -> (r: bool)
    ensures
        r == (a@ == b@),
{
    if a.len() != b.len() {
        return false;
    }
    let mut i: usize = 0;
    while i < a.len()
        invariant
            i <= a.len(),
            a.len() == b.len(),
            forall|k: int| 0 <= k < i ==> a@[k] == b@[k],
        decreases a.len() - i,
    {
        if a[i] != b[i] {
            return false;
        }
        i += 1;
    }
    assert(a@ =~= b@);
    true
}

/// The body of a response that came in chunks, given the bytes of the
/// chunks as they were gathered and the payload that the decoder read.
pub fn body_from_chunks(gathered: Vec<u8>, decoded: Option<Vec<u8>>) -> (r: Result<
    Option<String>,
    Error,
>)
    ensures
        match r {
            Ok(b) => body_of_chunks(gathered@, opt_bytes(decoded)) == Ok::<
                Option<Seq<char>>,
                Error,
            >(crate::structs::opt_text(b)),
            Err(e) => body_of_chunks(gathered@, opt_bytes(decoded)) == Err::<
                Option<Seq<char>>,
                Error,
            >(e),
        },
{
    match decoded {
        Some(payload) => {
            if same_bytes(&payload, &gathered) {
                body_from_payload(Some(gathered))
            } else {
                Err(Error::MalformedChunk)
            }
        },
        None => Err(Error::MalformedChunk),
    }
}

} // verus!
