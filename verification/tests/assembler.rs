use curio::assembler::{read_response, Assembler, Event, State, Want};
use curio::chunked::{body_from_chunks, body_from_payload, chunk_payload};
use curio::framing::{parse_chunk_size, resolve_framing, Framing};
use curio::map::OrderedMap;
use curio::types::Error;

#[test]
fn status_line_is_read() {
    let response = read_response(b"HTTP/1.1 404 Not Found\r\n\r\n").unwrap();
    assert_eq!(response.status, 404);
    assert_eq!(response.status_text, "Not Found");
    assert_eq!(response.protocol, "HTTP/1.1");
    assert_eq!(response.body, None);
    assert_eq!(response.header_count, 0);
}

#[test]
fn fixed_length_body_has_the_declared_length() {
    let wire = b"HTTP/1.1 200 OK\r\nContent-Type: text/plain\r\nContent-Length: 11\r\n\r\nhello world and more";
    let response = read_response(wire).unwrap();
    let body = response.body.unwrap();
    assert_eq!(body.len(), 11);
    assert_eq!(body, "hello world");
    assert_eq!(response.headers.get("Content-Type"), Some(&"text/plain".to_string()));
    assert_eq!(response.header_count, 2);
}

#[test]
fn chunks_are_decoded() {
    let chunks = ["4\r\nWiki\r\n", "5\r\npedia\r\n", "0\r\n\r\n"];
    let mut wire = b"HTTP/1.1 200 OK\r\nTransfer-Encoding: chunked\r\n\r\n".to_vec();
    for chunk in chunks.iter() {
        wire.extend_from_slice(chunk.as_bytes());
    }
    let response = read_response(&wire).unwrap();
    assert_eq!(response.body, Some("Wikipedia".to_string()));
}

#[test]
fn chunked_stream_is_decoded_by_the_decoder() {
    assert_eq!(
        chunk_payload(&b"4\r\nWiki\r\n5\r\npedia\r\n0\r\n\r\n".to_vec()),
        Some(b"Wikipedia".to_vec())
    );
    assert_eq!(chunk_payload(&b"0\r\n\r\n".to_vec()), Some(Vec::new()));
    assert_eq!(chunk_payload(&b"m\r\n\r\n".to_vec()), None);
    assert_eq!(chunk_payload(&b"3\r\nabcXY0\r\n\r\n".to_vec()), None);
}

#[test]
fn body_is_the_text_of_the_payload() {
    assert_eq!(body_from_payload(Some(b"caf\xc3\xa9".to_vec())), Ok(Some("caf\u{e9}".to_string())));
    assert_eq!(body_from_payload(Some(Vec::new())), Ok(None));
    assert_eq!(body_from_payload(Some(b"\xff".to_vec())), Err(Error::MalformedBody));
    assert_eq!(body_from_payload(None), Err(Error::MalformedChunk));
    assert_eq!(
        body_from_chunks(b"abc".to_vec(), Some(b"abc".to_vec())),
        Ok(Some("abc".to_string()))
    );
    assert_eq!(body_from_chunks(b"abc".to_vec(), Some(b"abd".to_vec())), Err(Error::MalformedChunk));
    assert_eq!(body_from_chunks(b"abc".to_vec(), None), Err(Error::MalformedChunk));
    assert_eq!(
        body_from_chunks(b"\xff".to_vec(), Some(b"\xff".to_vec())),
        Err(Error::MalformedBody)
    );
}

#[test]
fn chunk_without_its_line_end_is_refused() {
    let wire = b"HTTP/1.1 200 OK\r\nTransfer-Encoding: chunked\r\n\r\n3\r\nabcXY0\r\n\r\n";
    assert_eq!(read_response(wire).unwrap_err(), Error::MalformedChunk);
}

#[test]
fn chunks_may_come_in_pieces() {
    let mut assembler = Assembler::new();
    assembler.feed(Event::Line(b"HTTP/1.1 200 OK\r\n".to_vec()));
    assembler.feed(Event::Line(b"Transfer-Encoding: chunked\r\n".to_vec()));
    assembler.feed(Event::Line(b"\r\n".to_vec()));
    assembler.feed(Event::Line(b"5\r\n".to_vec()));
    assert_eq!(assembler.wants(), Want::Bytes(7));
    assembler.feed(Event::Bytes(b"he".to_vec()));
    assembler.feed(Event::Bytes(b"llo\r".to_vec()));
    assert_eq!(assembler.wants(), Want::Bytes(1));
    assembler.feed(Event::Bytes(b"\n".to_vec()));
    assembler.feed(Event::Line(b"0\r\n".to_vec()));
    assembler.feed(Event::Line(b"\r\n".to_vec()));
    assert_eq!(assembler.into_result().unwrap().body, Some("hello".to_string()));
}

#[test]
fn trailers_are_dropped() {
    let wire = b"HTTP/1.1 200 OK\r\nTransfer-Encoding: chunked\r\n\r\n3\r\nabc\r\n0\r\nExpires: never\r\n\r\n";
    let response = read_response(wire).unwrap();
    assert_eq!(response.body, Some("abc".to_string()));
    assert_eq!(response.headers.get("Expires"), None);
}

#[test]
fn content_length_comes_before_chunks() {
    let wire = b"HTTP/1.1 200 OK\r\nTransfer-Encoding: chunked\r\nContent-Length: 3\r\n\r\n4\r\nWiki\r\n0\r\n\r\n";
    let response = read_response(wire).unwrap();
    assert_eq!(response.body, Some("4\r\n".to_string()));
}

#[test]
fn no_framing_means_no_body() {
    let response = read_response(b"HTTP/1.1 200 OK\r\nServer: x\r\n\r\nignored").unwrap();
    assert_eq!(response.body, None);
}

#[test]
fn malformed_responses_are_refused() {
    assert_eq!(read_response(b"").unwrap_err(), Error::MalformedStatusLine);
    assert_eq!(read_response(b"HTTP/1.1\r\n\r\n").unwrap_err(), Error::MalformedStatusLine);
    assert_eq!(read_response(b"HTTP/1.1 abc OK\r\n\r\n").unwrap_err(), Error::MalformedStatusLine);
    assert_eq!(
        read_response(b"HTTP/1.1 200 OK\r\nno separator\r\n\r\n").unwrap_err(),
        Error::MalformedHeader
    );
    assert_eq!(
        read_response(b"HTTP/1.1 200 OK\r\nSet-Cookie: =1\r\n\r\n").unwrap_err(),
        Error::MalformedCookie
    );
    assert_eq!(
        read_response(b"HTTP/1.1 200 OK\r\nTransfer-Encoding: chunked\r\n\r\nzz\r\n").unwrap_err(),
        Error::MalformedChunk
    );
    assert_eq!(
        read_response(b"HTTP/1.1 200 OK\r\nContent-Length: 2\r\n\r\n\xff\xfe").unwrap_err(),
        Error::MalformedBody
    );
    assert_eq!(
        read_response(b"HTTP/1.1 200 OK\r\nContent-Length: 5\r\n\r\nab").unwrap_err(),
        Error::TransportIo
    );
    assert_eq!(read_response(b"HTTP/1.1 200 OK\r\nServer: x\r\n").unwrap_err(), Error::MalformedHeader);
}

#[test]
fn cookies_and_headers_are_gathered() {
    let wire = b"HTTP/1.1 200 OK\r\nSet-Cookie: a=1; Path=/; Max-Age=60\r\nX-A: 1\r\nX-A: 2\r\nx-a: 3\r\n\r\n";
    let response = read_response(wire).unwrap();
    assert_eq!(response.cookie_count, 1);
    let cookie = response.cookies.get("a").unwrap();
    assert_eq!(cookie.value, "1");
    assert_eq!(cookie.path, Some("/".to_string()));
    assert_eq!(cookie.max_age, Some(60));
    assert_eq!(response.header_count, 2);
    assert_eq!(response.headers.get("X-A"), Some(&"2".to_string()));
    assert_eq!(response.headers.get_ignore_case("X-a"), Some(&"3".to_string()));
}

#[test]
fn same_bytes_give_the_same_response() {
    let wire = b"HTTP/1.1 200 OK\r\nContent-Length: 2\r\nSet-Cookie: a=b\r\n\r\nhi";
    let first = read_response(wire).unwrap();
    let second = read_response(wire).unwrap();
    assert_eq!(format!("{:?}", first), format!("{:?}", second));
}

#[test]
fn assembler_is_driven_step_by_step() {
    let mut assembler = Assembler::new();
    assert_eq!(assembler.wants(), Want::Line);
    assembler.feed(Event::Line(b"HTTP/1.1 200 OK\r\n".to_vec()));
    assert_eq!(assembler.state(), State::AwaitHeaders);
    assembler.feed(Event::Line(b"Content-Length: 4\r\n".to_vec()));
    assert_eq!(assembler.wants(), Want::Line);
    assembler.feed(Event::Line(b"\r\n".to_vec()));
    assert_eq!(assembler.state(), State::AwaitBody);
    assert_eq!(assembler.wants(), Want::Bytes(4));
    assembler.feed(Event::Bytes(b"ab".to_vec()));
    assert_eq!(assembler.wants(), Want::Bytes(2));
    assembler.feed(Event::Bytes(b"cd".to_vec()));
    assert_eq!(assembler.state(), State::Done);
    assert_eq!(assembler.wants(), Want::Nothing);
    assert_eq!(assembler.into_result().unwrap().body, Some("abcd".to_string()));
}

#[test]
fn assembler_asks_for_chunks() {
    let mut assembler = Assembler::new();
    assembler.feed(Event::Line(b"HTTP/1.1 200 OK\r\n".to_vec()));
    assembler.feed(Event::Line(b"Transfer-Encoding: chunked\r\n".to_vec()));
    assembler.feed(Event::Line(b"\r\n".to_vec()));
    assert_eq!(assembler.wants(), Want::Line);
    assembler.feed(Event::Line(b"a;note\r\n".to_vec()));
    assert_eq!(assembler.wants(), Want::Bytes(12));
    assembler.feed(Event::Bytes(b"0123456789\r\n".to_vec()));
    assert_eq!(assembler.wants(), Want::Line);
    assembler.feed(Event::Line(b"0\r\n".to_vec()));
    assembler.feed(Event::Line(b"\r\n".to_vec()));
    assert_eq!(assembler.into_result().unwrap().body, Some("0123456789".to_string()));
}

#[test]
fn a_wrong_event_fails_the_assembler() {
    let mut assembler = Assembler::new();
    assembler.feed(Event::Bytes(b"HTTP".to_vec()));
    assert_eq!(assembler.state(), State::Malformed);
    assert_eq!(assembler.into_result().unwrap_err(), Error::TransportIo);
    assert_eq!(Assembler::new().into_result().unwrap_err(), Error::TransportIo);
}

#[test]
fn framing_is_resolved_from_headers() {
    let mut headers: OrderedMap<String> = OrderedMap::new();
    assert_eq!(resolve_framing(&headers), Framing::NoBody);
    headers.insert("transfer-encoding".to_string(), "chunked".to_string());
    assert_eq!(resolve_framing(&headers), Framing::Chunked);
    headers.insert("Content-Length".to_string(), "42".to_string());
    assert_eq!(resolve_framing(&headers), Framing::FixedLength(42));
    headers.insert("Content-Length".to_string(), "many".to_string());
    assert_eq!(resolve_framing(&headers), Framing::FixedLength(0));
}

#[test]
fn chunk_sizes_are_hexadecimal() {
    assert_eq!(parse_chunk_size("1a\r\n"), Some(26));
    assert_eq!(parse_chunk_size("FF ; ext=1\r\n"), Some(255));
    assert_eq!(parse_chunk_size("0\r\n"), Some(0));
    assert_eq!(parse_chunk_size("\r\n"), None);
    assert_eq!(parse_chunk_size("g\r\n"), None);
}
