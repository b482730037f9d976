//! How the length of a body is known: from `Content-Length`, from chunks,
//! or not at all.

use crate::map::{lookup_ignore_case, OrderedMap};
use crate::text::{chars_of, find, find_in, parse_number, parse_usize, slice_of, trim, trim_text};
use crate::utils::parsers::{strip_line_end, without_line_end};
use vstd::prelude::*;

verus! {

/// How the body of a response is framed.
#[derive(Debug, Clone, Copy, PartialEq, Eq, Structural)]
pub enum Framing {
    /// No body.
    NoBody,
    /// A body of this many bytes.
    FixedLength(usize),
    /// A body in chunks.
    Chunked,
}

/// The length that the value of a `Content-Length` header gives: the number
/// that the value writes, and 0 where it writes none that a `usize` holds.
pub open spec fn length_of(value: Seq<char>) -> usize {
    match parse_number(value, false) {
        Some(n) if n <= usize::MAX => n as usize,
        _ => 0,
    }
}

/// The framing that the headers of a response ask for.
///
/// The names of the headers are compared without regard to case.
/// `Content-Length` comes first: where it is present the body has the length
/// that it gives. Without it, a `Transfer-Encoding` of `chunked` asks for
/// chunks. With neither there is no body.
pub open spec fn framing_of(headers: Seq<(Seq<char>, Seq<char>)>) -> Framing {
    match lookup_ignore_case(headers, "Content-Length"@) {
        Some(value) => Framing::FixedLength(length_of(value)),
        None => match lookup_ignore_case(headers, "Transfer-Encoding"@) {
            Some(value) if value == "chunked"@ => Framing::Chunked,
            _ => Framing::NoBody,
        },
    }
}

/// The framing that the headers of a response ask for.
pub fn resolve_framing(headers: &OrderedMap<String>) -> (f: Framing)
    ensures
        f == framing_of(headers@),
{
    match headers.get_ignore_case("Content-Length") {
        Some(value) => {
            match parse_usize(&chars_of(value.as_str()), false) {
                Some(n) => Framing::FixedLength(n),
                None => Framing::FixedLength(0),
            }
        },
        None => {
            match headers.get_ignore_case("Transfer-Encoding") {
                Some(value) => {
                    if *value == "chunked".to_owned() {
                        Framing::Chunked
                    } else {
                        Framing::NoBody
                    }
                },
                None => Framing::NoBody,
            }
        },
    }
}

/// The size that the first line of a chunk gives.
///
/// The size stands before the first `;` of the line, or is the whole line
/// without its line end, and is written in base sixteen, with spaces around
/// it or without. A line that writes no such number gives no size.
pub open spec fn chunk_size_of(line: Seq<char>) -> Option<usize> {
    let body = without_line_end(line);
    let digits = match find(body, seq![';']) {
        Some(i) if 0 <= i <= body.len() => body.take(i),
        _ => body,
    };
    match parse_number(trim(digits), true) {
        Some(n) if n <= usize::MAX => Some(n as usize),
        _ => None,
    }
}

/// The size that the first line of a chunk gives.
pub fn parse_chunk_size(line: &str) -> (r: Option<usize>)
    ensures
        r == chunk_size_of(line@),
{
    let all = chars_of(line);
    let body = strip_line_end(&all);
    let mut semicolon: Vec<char> = Vec::new();
    semicolon.push(';');
    assert(semicolon@ == seq![';']);
    let digits = match find_in(&body, &semicolon, 0) {
        Some(i) => {
            let d = slice_of(&body, 0, i);
            assert(d@ == body@.take(i as int));
            d
        },
        None => body,
    };
    parse_usize(&trim_text(&digits), true)
}

} // verus!
