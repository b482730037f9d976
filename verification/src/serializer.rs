//! A request written as the bytes that go on the wire.

use crate::structs::{HeaderView, Request, RequestType, RequestView};
use crate::text::{
    append_chars, chars_of, contains, decimal_text, find, join, lemma_find_from_is,
    lemma_split_whole, matches_at, push_decimal, string_of,
};
use crate::utils::parsers::{header_of, line_end, without_line_end};
use vstd::prelude::*;
use vstd::utf8::encode_utf8;

verus! {

/// The name by which the client tells who it is.
pub open spec fn user_agent() -> Seq<char> {
    "Curio/0.1.0"@
}

/// The word for a method.
pub open spec fn verb_text(t: RequestType) -> Seq<char> {
    match t {
        RequestType::GET => "GET"@,
        RequestType::POST => "POST"@,
        RequestType::PUT => "PUT"@,
        RequestType::HEAD => "HEAD"@,
        RequestType::DELETE => "DELETE"@,
        RequestType::PATCH => "PATCH"@,
        RequestType::OPTIONS => "OPTIONS"@,
    }
}

/// The word for a method.
pub fn verb_name(t: RequestType) -> (r: &'static str)
    ensures
        r@ == verb_text(t),
{
    match t {
        RequestType::GET => "GET",
        RequestType::POST => "POST",
        RequestType::PUT => "PUT",
        RequestType::HEAD => "HEAD",
        RequestType::DELETE => "DELETE",
        RequestType::PATCH => "PATCH",
        RequestType::OPTIONS => "OPTIONS",
    }
}

/// Whether a request of the method carries a body: `POST`, `PUT` and
/// `PATCH` do.
pub open spec fn carries_body(t: RequestType) -> bool {
    t == RequestType::POST || t == RequestType::PUT || t == RequestType::PATCH
}

/// One header as a line: the name, `": "`, the value, and the line end.
pub open spec fn header_line(name: Seq<char>, value: Seq<char>) -> Seq<char> {
    name + ": "@ + value + "\r\n"@
}

/// The headers as lines, in their order.
pub open spec fn header_lines(headers: Seq<(Seq<char>, Seq<char>)>) -> Seq<char>
    decreases headers.len(),
{
    if headers.len() == 0 {
        Seq::empty()
    } else {
        header_lines(headers.drop_last()) + header_line(headers.last().0, headers.last().1)
    }
}

/// The bytes of the body that goes with a request: the body of a request
/// whose method carries one, as it is; no bytes otherwise.
pub open spec fn body_bytes(q: RequestView) -> Seq<u8> {
    if carries_body(q.request_type) {
        match q.body {
            Some((_, content)) => encode_utf8(content),
            None => Seq::empty(),
        }
    } else {
        Seq::empty()
    }
}

/// The lines that tell of the body: for a method that carries a body, a
/// `Content-Length` with the number of bytes of the body and, where the
/// request has a body, its `Content-Type`; nothing for other methods.
pub open spec fn body_headers(q: RequestView) -> Seq<char> {
    if carries_body(q.request_type) {
        header_line("Content-Length"@, decimal_text(body_bytes(q).len())) + match q.body {
            Some((content_type, _)) => header_line("Content-Type"@, content_type),
            None => Seq::empty(),
        }
    } else {
        Seq::empty()
    }
}

/// The head of a request: the request line, the headers of the caller in
/// the order in which they were set, then `Host`, `User-Agent` and
/// `Connection: close`, the lines that tell of the body, and an empty line.
pub open spec fn request_head(q: RequestView) -> Seq<char> {
    verb_text(q.request_type) + " "@ + q.path + " HTTP/1.1\r\n"@ + header_lines(q.headers)
        + header_line("Host"@, q.domain) + header_line("User-Agent"@, user_agent()) + header_line(
        "Connection"@,
        "close"@,
    ) + body_headers(q) + "\r\n"@
}

/// The bytes of a request on the wire: its head in UTF-8, then its body.
pub open spec fn request_bytes(q: RequestView) -> Seq<u8> {
    encode_utf8(request_head(q)) + body_bytes(q)
}

/// Appends one header line to `out`.
fn push_header(out: &mut Vec<char>, name: &Vec<char>, value: &Vec<char>)
    ensures
        final(out)@ == old(out)@ + header_line(name@, value@),
{
    append_chars(out, name);
    append_chars(out, &chars_of(": "));
    append_chars(out, value);
    append_chars(out, &chars_of("\r\n"));
    assert(out@ == old(out)@ + header_line(name@, value@));
}

/// Whether a request of the method carries a body.
pub fn has_body(t: RequestType) -> (r: bool)
    ensures
        r == carries_body(t),
{
    match t {
        RequestType::POST => true,
        RequestType::PUT => true,
        RequestType::PATCH => true,
        _ => false,
    }
}

/// Writes a request as the bytes that go on the wire.
pub fn serialize(q: &Request) -> (bytes: Vec<u8>)
    ensures
        bytes@ == request_bytes(q@),
{
    let mut body: Vec<u8> = Vec::new();
    let with_body = has_body(q.request_type);
    if with_body {
        match &q.body {
            Some(b) => {
                body = b.1.as_str().as_bytes_vec();
            },
            None => {},
        }
    }
    assert(body@ == body_bytes(q@));
    let mut head: Vec<char> = chars_of(verb_name(q.request_type));
    append_chars(&mut head, &chars_of(" "));
    append_chars(&mut head, &chars_of(q.path.as_str()));
    append_chars(&mut head, &chars_of(" HTTP/1.1\r\n"));
    let ghost start = head@;
    let mut i: usize = 0;
    assert(q.headers@.take(0) == Seq::<(Seq<char>, Seq<char>)>::empty());
    while i < q.headers.len()
        invariant
            i <= q.headers@.len(),
            head@ == start + header_lines(q.headers@.take(i as int)),
        decreases q.headers@.len() - i,
    {
        let ghost next = q.headers@.take(i + 1);
        assert(next.drop_last() == q.headers@.take(i as int));
        assert(next.last() == q.headers@[i as int]);
        push_header(
            &mut head,
            &chars_of(q.headers.key_at(i).as_str()),
            &chars_of(q.headers.value_at(i).as_str()),
        );
        i += 1;
    }
    assert(q.headers@.take(q.headers@.len() as int) == q.headers@);
    push_header(&mut head, &chars_of("Host"), &chars_of(q.domain.as_str()));
    push_header(&mut head, &chars_of("User-Agent"), &chars_of("Curio/0.1.0"));
    push_header(&mut head, &chars_of("Connection"), &chars_of("close"));
    let ghost before_body = head@;
    if with_body {
        let mut digits: Vec<char> = Vec::new();
        push_decimal(&mut digits, body.len());
        assert(digits@ == decimal_text(body@.len()));
        push_header(&mut head, &chars_of("Content-Length"), &digits);
        match &q.body {
            Some(b) => {
                push_header(&mut head, &chars_of("Content-Type"), &chars_of(b.0.as_str()));
            },
            None => {
                assert(head@ + Seq::<char>::empty() == head@);
            },
        }
    } else {
        assert(head@ + Seq::<char>::empty() == head@);
    }
    assert(head@ == before_body + body_headers(q@));
    append_chars(&mut head, &chars_of("\r\n"));
    assert(head@ == request_head(q@));
    let text = string_of(&head);
    let mut bytes = text.as_str().as_bytes_vec();
    let mut k: usize = 0;
    let ghost head_bytes = bytes@;
    while k < body.len()
        invariant
            k <= body.len(),
            bytes@ == head_bytes + body@.take(k as int),
        decreases body.len() - k,
    {
        bytes.push(body[k]);
        k += 1;
    }
    assert(body@.take(body.len() as int) == body@);
    bytes
}

/// The characters of a header line.
proof fn lemma_header_line(name: Seq<char>, value: Seq<char>)
    ensures
        header_line(name, value) == name + seq![':', ' '] + value + line_end(),
        without_line_end(header_line(name, value)) == name + seq![':', ' '] + value,
{
    reveal_strlit(": ");
    reveal_strlit("\r\n");
    assert(": "@ == seq![':', ' ']);
    assert("\r\n"@ == line_end());
    let body = name + seq![':', ' '] + value;
    let line = body + line_end();
    assert(line.take(line.len() - 2) == body);
}

/// Where a name holds no `": "`, none begins inside the name when `": "`
/// and more is put after it.
proof fn lemma_no_separator_in_name(name: Seq<char>, value: Seq<char>, j: int)
    requires
        !contains(name, seq![':', ' ']),
        0 <= j < name.len(),
    ensures
        !matches_at(name + seq![':', ' '] + value, seq![':', ' '], j),
{
    let sep = seq![':', ' '];
    let body = name + sep + value;
    if matches_at(body, sep, j) {
        let found = body.subrange(j, j + 2);
        assert(found[0] == sep[0] && found[1] == sep[1]);
        assert(body[j] == ':' && body[j + 1] == ' ');
        if j + 1 < name.len() {
            assert(name[j] == body[j] && name[j + 1] == body[j + 1]);
            assert(name.subrange(j, j + 2) =~= sep);
            assert(matches_at(name, sep, j));
        } else {
            assert(body[j + 1] == sep[0]);
        }
    }
}

/// Where a name holds no `": "`, the first `": "` of the name with `": "`
/// and more after it stands right after the name.
proof fn lemma_separator_follows_name(name: Seq<char>, value: Seq<char>)
    requires
        !contains(name, seq![':', ' ']),
    ensures
        find(name + seq![':', ' '] + value, seq![':', ' ']) == Some(name.len() as int),
{
    let sep = seq![':', ' '];
    let body = name + sep + value;
    let at = name.len() as int;
    assert(matches_at(body, sep, at)) by {
        assert(body.subrange(at, at + 2) =~= sep);
    }
    assert forall|j: int| 0 <= j < at implies !matches_at(body, sep, j) by {
        lemma_no_separator_in_name(name, value, j);
    }
    lemma_find_from_is(body, sep, 0, at);
}

/// What is written can be read: the line that the serializer writes for a
/// header is read by the header tokenizer as that header, where the name
/// holds no `": "` and the value no line end.
pub proof fn lemma_header_round_trip(name: Seq<char>, value: Seq<char>)
    requires
        !contains(name, seq![':', ' ']),
        !contains(value, line_end()),
    ensures
        header_of(header_line(name, value)) == Some(HeaderView { name, value }),
{
    lemma_header_line(name, value);
    lemma_separator_follows_name(name, value);
    lemma_split_whole(value, line_end());
    let body = name + seq![':', ' '] + value;
    let at = name.len() as int;
    assert(body.take(at) == name);
    assert(body.skip(at + 2) == value);
    assert(join(seq![value], Seq::empty()) == value);
}

} // verus!
