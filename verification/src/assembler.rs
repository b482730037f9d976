//! The response assembler: a state machine that is fed the lines and the
//! bytes of a response, says after each what it wants next, and ends with
//! the response or with the reason why there is none.
//!
//! The machine reads nothing by itself. Whoever drives it asks `wants`,
//! reads a line or a run of bytes from the transport, and hands it over
//! with `feed`. `read_response` drives it over bytes in memory.

use crate::chunked::{
    body_from_chunks, body_from_payload, body_of_chunks, body_of_payload, chunk_payload,
    chunked_payload, decode_text, text_of_bytes,
};
use crate::framing::{chunk_size_of, framing_of, parse_chunk_size, resolve_framing, Framing};
use crate::map::{lookup_ignore_case, OrderedMap};
use crate::serializer::{body_bytes, carries_body};
use crate::structs::{
    opt_text, string_views, Cookie, CookieView, RequestView, Response, ResponseView,
};
use crate::text::{decimal_text, parse_number};
use crate::types::Error;
use crate::utils::parsers::{line_end, parse_status_line, status_line_of};
use crate::utils::{head_line_read, head_lines_read, read_head_line, response_of};
use vstd::prelude::*;
use vstd::utf8::{decode_utf8, encode_utf8, valid_utf8};

verus! {

/// Where the assembler stands.
#[derive(Debug, Clone, Copy, PartialEq, Eq, Structural)]
pub enum State {
    /// Nothing was read yet; the status line comes next.
    AwaitStatusLine,
    /// The status line was read; header lines follow, up to an empty line.
    AwaitHeaders,
    /// The head is complete and the framing of the body is being settled.
    /// The machine passes through this state within one step.
    ResolveFraming,
    /// The body is being read.
    AwaitBody,
    /// The response is complete.
    Done,
    /// The response cannot be read.
    Malformed,
}

/// What the assembler waits for while it reads the body.
#[derive(Debug, Clone, Copy, PartialEq, Eq, Structural)]
pub enum Stage {
    /// Bytes of a body of fixed length.
    Fixed,
    /// The line that gives the size of the next chunk.
    ChunkSize,
    /// The bytes of a chunk and the line end after them.
    ChunkData,
    /// A trailer line, or the empty line that ends the body.
    Trailer,
}

/// What the assembler wants next from the transport.
#[derive(Debug, Clone, Copy, PartialEq, Eq, Structural)]
pub enum Want {
    /// One line with its line end; no bytes where the stream has ended.
    Line,
    /// Bytes, at least one and at most this many; none where the stream has
    /// ended.
    Bytes(usize),
    /// Nothing: the assembler has come to its end.
    Nothing,
}

/// What the transport handed over.
#[derive(Debug, Clone)]
pub enum Event {
    /// The bytes of one line.
    Line(Vec<u8>),
    /// A run of bytes.
    Bytes(Vec<u8>),
}

/// What an `Event` holds.
pub enum EventView {
    Line(Seq<u8>),
    Bytes(Seq<u8>),
}

impl View for Event {
    type V = EventView;

    open spec fn view(&self) -> EventView {
        match self {
            Event::Line(l) => EventView::Line(l@),
            Event::Bytes(b) => EventView::Bytes(b@),
        }
    }
}

/// What an `Assembler` holds.
pub struct AssemblerView {
    pub state: State,
    pub stage: Stage,
    /// How many bytes the assembler still waits for.
    pub remaining: usize,
    pub protocol: Seq<char>,
    pub status: isize,
    pub status_text: Seq<char>,
    /// The lines between the status line and the empty line, as they came.
    pub raw_head: Seq<Seq<char>>,
    pub headers: Seq<(Seq<char>, Seq<char>)>,
    pub cookies: Seq<(Seq<char>, CookieView)>,
    /// The bytes of the body that were read: the body itself where its
    /// length is fixed, the stream of chunks where it comes in chunks.
    pub gathered: Seq<u8>,
    /// The bytes of the chunks that were read, without their sizes and line
    /// ends.
    pub payload: Seq<u8>,
    pub body: Option<Seq<char>>,
    pub error: Option<Error>,
}

/// The assembler before anything was read.
pub open spec fn initial() -> AssemblerView {
    AssemblerView {
        state: State::AwaitStatusLine,
        stage: Stage::Fixed,
        remaining: 0,
        protocol: Seq::empty(),
        status: 0,
        status_text: Seq::empty(),
        raw_head: Seq::empty(),
        headers: Seq::empty(),
        cookies: Seq::empty(),
        gathered: Seq::empty(),
        payload: Seq::empty(),
        body: None,
        error: None,
    }
}

/// The line that ends the head, and the body in chunks: a line end alone.
pub open spec fn is_empty_line(line: Seq<u8>) -> bool {
    line.len() == 2 && line[0] == 13 && line[1] == 10
}

/// The assembler after it failed with `e`.
pub open spec fn failed(s: AssemblerView, e: Error) -> AssemblerView {
    AssemblerView { state: State::Malformed, error: Some(e), ..s }
}

/// The assembler after the body was decoded: done with the body, or failed
/// with the error of the decoding.
pub open spec fn finished(s: AssemblerView, body: Result<Option<Seq<char>>, Error>) -> AssemblerView {
    match body {
        Ok(b) => AssemblerView { state: State::Done, body: b, ..s },
        Err(e) => failed(s, e),
    }
}

/// The assembler after the framing was settled from the headers: done where
/// there is no body to read, else waiting for the body.
pub open spec fn resolved(s: AssemblerView) -> AssemblerView {
    match framing_of(s.headers) {
        Framing::NoBody => finished(s, Ok(None)),
        Framing::FixedLength(n) => if n == 0 {
            finished(s, Ok(None))
        } else {
            AssemblerView { state: State::AwaitBody, stage: Stage::Fixed, remaining: n, ..s }
        },
        Framing::Chunked => AssemblerView {
            state: State::AwaitBody,
            stage: Stage::ChunkSize,
            ..s
        },
    }
}

/// The assembler after one line.
///
/// The first line is the status line. Each further line is a header or a
/// cookie and joins the raw head, until the empty line, at which the framing
/// is settled. In a body
/// in chunks, a line gives the size of the next chunk; after the chunk of
/// size 0, lines are trailers and are dropped, until the empty line. There
/// the stream of chunks, without its trailers, goes to the decoder, and the
/// body is the text of the bytes of the chunks where the decoder read the
/// same bytes. A line that cannot be read as what is due fails the
/// assembler, and so does a line that comes where bytes were wanted. At its
/// end the assembler changes no more.
pub open spec fn after_line(s: AssemblerView, line: Seq<u8>) -> AssemblerView {
    match s.state {
        State::AwaitStatusLine => match text_of_bytes(line) {
            Some(text) => match status_line_of(text) {
                Some((protocol, status, status_text)) => AssemblerView {
                    state: State::AwaitHeaders,
                    protocol,
                    status,
                    status_text,
                    ..s
                },
                None => failed(s, Error::MalformedStatusLine),
            },
            None => failed(s, Error::MalformedStatusLine),
        },
        State::AwaitHeaders => if is_empty_line(line) {
            resolved(AssemblerView { state: State::ResolveFraming, ..s })
        } else {
            match text_of_bytes(line) {
                Some(text) => match head_line_read(s.headers, s.cookies, text) {
                    Ok((headers, cookies)) => AssemblerView {
                        raw_head: s.raw_head.push(text),
                        headers,
                        cookies,
                        ..s
                    },
                    Err(e) => failed(s, e),
                },
                None => failed(s, Error::MalformedHeader),
            }
        },
        State::AwaitBody => match s.stage {
            Stage::ChunkSize => match text_of_bytes(line) {
                Some(text) => match chunk_size_of(text) {
                    Some(n) => if n == 0 {
                        AssemblerView { stage: Stage::Trailer, gathered: s.gathered + line, ..s }
                    } else if n > usize::MAX - 2 {
                        failed(s, Error::MalformedChunk)
                    } else {
                        AssemblerView {
                            stage: Stage::ChunkData,
                            remaining: (n + 2) as usize,
                            gathered: s.gathered + line,
                            ..s
                        }
                    },
                    None => failed(s, Error::MalformedChunk),
                },
                None => failed(s, Error::MalformedChunk),
            },
            Stage::Trailer => if is_empty_line(line) {
                finished(
                    AssemblerView { gathered: s.gathered + line, ..s },
                    body_of_chunks(s.payload, chunked_payload(s.gathered + line)),
                )
            } else if line.len() == 0 {
                failed(s, Error::MalformedChunk)
            } else {
                s
            },
            _ => failed(s, Error::TransportIo),
        },
        _ => s,
    }
}

/// The assembler after a run of bytes.
///
/// Bytes count only while a body is read and bytes are wanted: at least
/// one, and no more than wanted. They are gathered; of a chunk, all bytes but
/// the two of the line end after it are its payload. When no bytes are
/// wanted any more, a body of fixed length is decoded, and a chunk is
/// followed by the size of the next. Bytes that come otherwise fail the
/// assembler. At its end the assembler changes no more.
pub open spec fn after_bytes(s: AssemblerView, bytes: Seq<u8>) -> AssemblerView {
    match s.state {
        State::AwaitStatusLine => failed(s, Error::TransportIo),
        State::AwaitHeaders => failed(s, Error::TransportIo),
        State::AwaitBody => if (s.stage == Stage::Fixed || s.stage == Stage::ChunkData) && 0
            < bytes.len() <= s.remaining {
            let gathered = s.gathered + bytes;
            let remaining = (s.remaining - bytes.len()) as usize;
            let payload = if s.stage == Stage::ChunkData {
                s.payload + bytes.take(payload_share(s, bytes))
            } else {
                s.payload
            };
            if remaining > 0 {
                AssemblerView { gathered, remaining, payload, ..s }
            } else if s.stage == Stage::Fixed {
                finished(
                    AssemblerView { gathered, remaining, payload, ..s },
                    body_of_payload(Some(gathered)),
                )
            } else {
                AssemblerView { stage: Stage::ChunkSize, gathered, remaining, payload, ..s }
            }
        } else {
            failed(s, Error::TransportIo)
        },
        _ => s,
    }
}

/// How many of the bytes that come next belong to the payload of the chunk
/// that is read: all that are wanted but the two of the line end.
pub open spec fn payload_share(s: AssemblerView, bytes: Seq<u8>) -> int {
    let left = if s.remaining > 2 {
        s.remaining - 2
    } else {
        0
    };
    if bytes.len() <= left {
        bytes.len() as int
    } else {
        left
    }
}

/// The assembler after an event.
pub open spec fn after(s: AssemblerView, e: EventView) -> AssemblerView {
    match e {
        EventView::Line(line) => after_line(s, line),
        EventView::Bytes(bytes) => after_bytes(s, bytes),
    }
}

/// What the assembler wants next.
pub open spec fn wanted(s: AssemblerView) -> Want {
    match s.state {
        State::AwaitStatusLine => Want::Line,
        State::AwaitHeaders => Want::Line,
        State::AwaitBody => match s.stage {
            Stage::Fixed => Want::Bytes(s.remaining),
            Stage::ChunkData => Want::Bytes(s.remaining),
            Stage::ChunkSize => Want::Line,
            Stage::Trailer => Want::Line,
        },
        _ => Want::Nothing,
    }
}

/// How the assembler ended: with the response where it is done, with its
/// error where it failed, and with `TransportIo` where it was left before
/// its end.
pub open spec fn outcome(s: AssemblerView) -> Result<ResponseView, Error> {
    match s.state {
        State::Done => Ok(
            ResponseView {
                protocol: s.protocol,
                status: s.status,
                status_text: s.status_text,
                headers: s.headers,
                header_count: s.headers.len() as usize,
                cookies: s.cookies,
                cookie_count: s.cookies.len() as usize,
                body: s.body,
                warnings: Seq::empty(),
            },
        ),
        State::Malformed => match s.error {
            Some(e) => Err(e),
            None => Err(Error::TransportIo),
        },
        _ => Err(Error::TransportIo),
    }
}

/// The response assembler.
#[derive(Debug, Clone)]
pub struct Assembler {
    state: State,
    stage: Stage,
    remaining: usize,
    protocol: String,
    status: isize,
    status_text: String,
    raw_head: Vec<String>,
    headers: OrderedMap<String>,
    cookies: OrderedMap<Cookie>,
    gathered: Vec<u8>,
    payload: Vec<u8>,
    body: Option<String>,
    error: Option<Error>,
}

impl View for Assembler {
    type V = AssemblerView;

    closed spec fn view(&self) -> AssemblerView {
        AssemblerView {
            state: self.state,
            stage: self.stage,
            remaining: self.remaining,
            protocol: self.protocol@,
            status: self.status,
            status_text: self.status_text@,
            raw_head: string_views(self.raw_head@),
            headers: self.headers@,
            cookies: self.cookies@,
            gathered: self.gathered@,
            payload: self.payload@,
            body: opt_text(self.body),
            error: self.error,
        }
    }
}

/// Appends `tail` to `out`.
fn append_bytes(out: &mut Vec<u8>, tail: &Vec<u8>)
    ensures
        final(out)@ == old(out)@ + tail@,
{
    let mut i: usize = 0;
    while i < tail.len()
        invariant
            i <= tail.len(),
            out@ == old(out)@ + tail@.take(i as int),
        decreases tail.len() - i,
    {
        out.push(tail[i]);
        i += 1;
    }
    assert(tail@.take(tail.len() as int) == tail@);
}

/// Whether a line is a line end alone.
fn empty_line(line: &Vec<u8>) -> (r: bool)
    ensures
        r == is_empty_line(line@),
{
    line.len() == 2 && line[0] == 13 && line[1] == 10
}

impl Assembler {
    /// An assembler that has read nothing.
    pub fn new() -> (a: Assembler)
        ensures
            a@ == initial(),
    {
        let raw_head: Vec<String> = Vec::new();
        assert(string_views(raw_head@) == Seq::<Seq<char>>::empty());
        Assembler {
            state: State::AwaitStatusLine,
            stage: Stage::Fixed,
            remaining: 0,
            protocol: String::new(),
            status: 0,
            status_text: String::new(),
            raw_head,
            headers: OrderedMap::new(),
            cookies: OrderedMap::new(),
            gathered: Vec::new(),
            payload: Vec::new(),
            body: None,
            error: None,
        }
    }

    /// Where the assembler stands.
    pub fn state(&self) -> (s: State)
        ensures
            s == self@.state,
    {
        self.state
    }

    /// The lines between the status line and the empty line that were read,
    /// as they came.
    pub fn raw_head(&self) -> (lines: &Vec<String>)
        ensures
            string_views(lines@) == self@.raw_head,
    {
        &self.raw_head
    }

    /// What the assembler wants next.
    pub fn wants(&self) -> (w: Want)
        ensures
            w == wanted(self@),
    {
        match self.state {
            State::AwaitStatusLine => Want::Line,
            State::AwaitHeaders => Want::Line,
            State::AwaitBody => match self.stage {
                Stage::Fixed => Want::Bytes(self.remaining),
                Stage::ChunkData => Want::Bytes(self.remaining),
                Stage::ChunkSize => Want::Line,
                Stage::Trailer => Want::Line,
            },
            _ => Want::Nothing,
        }
    }

    fn fail(&mut self, e: Error)
        ensures
            final(self)@ == failed(old(self)@, e),
    {
        self.state = State::Malformed;
        self.error = Some(e);
    }

    fn finish(&mut self, body: Result<Option<String>, Error>)
        ensures
            final(self)@ == finished(
                old(self)@,
                match body {
                    Ok(b) => Ok(opt_text(b)),
                    Err(e) => Err(e),
                },
            ),
    {
        match body {
            Ok(b) => {
                self.state = State::Done;
                self.body = b;
            },
            Err(e) => {
                self.fail(e);
            },
        }
    }

    fn resolve(&mut self)
        ensures
            final(self)@ == resolved(old(self)@),
    {
        match resolve_framing(&self.headers) {
            Framing::NoBody => {
                self.finish(Ok(None));
            },
            Framing::FixedLength(n) => {
                if n == 0 {
                    self.finish(Ok(None));
                } else {
                    self.state = State::AwaitBody;
                    self.stage = Stage::Fixed;
                    self.remaining = n;
                }
            },
            Framing::Chunked => {
                self.state = State::AwaitBody;
                self.stage = Stage::ChunkSize;
            },
        }
    }

    fn feed_status_line(&mut self, line: Vec<u8>)
        requires
            old(self)@.state == State::AwaitStatusLine,
        ensures
            final(self)@ == after_line(old(self)@, line@),
    {
        match decode_text(line) {
            Some(text) => match parse_status_line(text.as_str()) {
                Ok((protocol, status, status_text)) => {
                    self.state = State::AwaitHeaders;
                    self.protocol = protocol;
                    self.status = status;
                    self.status_text = status_text;
                },
                Err(e) => {
                    self.fail(e);
                },
            },
            None => {
                self.fail(Error::MalformedStatusLine);
            },
        }
    }

    fn feed_header_line(&mut self, line: Vec<u8>)
        requires
            old(self)@.state == State::AwaitHeaders,
        ensures
            final(self)@ == after_line(old(self)@, line@),
    {
        if empty_line(&line) {
            self.state = State::ResolveFraming;
            self.resolve();
        } else {
            match decode_text(line) {
                Some(text) => {
                    match read_head_line(&mut self.headers, &mut self.cookies, &text) {
                        Ok(_) => {
                            let ghost before = string_views(self.raw_head@);
                            self.raw_head.push(text);
                            assert(string_views(self.raw_head@) == before.push(text@));
                        },
                        Err(e) => {
                            self.fail(e);
                        },
                    }
                },
                None => {
                    self.fail(Error::MalformedHeader);
                },
            }
        }
    }

    fn feed_chunk_size(&mut self, line: Vec<u8>)
        requires
            old(self)@.state == State::AwaitBody,
            old(self)@.stage == Stage::ChunkSize,
        ensures
            final(self)@ == after_line(old(self)@, line@),
    {
        let mut gathered: Vec<u8> = Vec::new();
        append_bytes(&mut gathered, &self.gathered);
        append_bytes(&mut gathered, &line);
        assert(gathered@ == self.gathered@ + line@);
        match decode_text(line) {
            Some(text) => match parse_chunk_size(text.as_str()) {
                Some(n) => {
                    if n == 0 {
                        self.stage = Stage::Trailer;
                        self.gathered = gathered;
                    } else if n > usize::MAX - 2 {
                        self.fail(Error::MalformedChunk);
                    } else {
                        self.stage = Stage::ChunkData;
                        self.remaining = n + 2;
                        self.gathered = gathered;
                    }
                },
                None => {
                    self.fail(Error::MalformedChunk);
                },
            },
            None => {
                self.fail(Error::MalformedChunk);
            },
        }
    }

    fn feed_trailer(&mut self, line: Vec<u8>)
        requires
            old(self)@.state == State::AwaitBody,
            old(self)@.stage == Stage::Trailer,
        ensures
            final(self)@ == after_line(old(self)@, line@),
    {
        if empty_line(&line) {
            append_bytes(&mut self.gathered, &line);
            let decoded = chunk_payload(&self.gathered);
            let mut own: Vec<u8> = Vec::new();
            append_bytes(&mut own, &self.payload);
            assert(own@ == self.payload@);
            let body = body_from_chunks(own, decoded);
            self.finish(body);
        } else if line.len() == 0 {
            self.fail(Error::MalformedChunk);
        }
    }

    fn feed_line(&mut self, line: Vec<u8>)
        ensures
            final(self)@ == after_line(old(self)@, line@),
    {
        match self.state {
            State::AwaitStatusLine => {
                self.feed_status_line(line);
            },
            State::AwaitHeaders => {
                self.feed_header_line(line);
            },
            State::AwaitBody => match self.stage {
                Stage::ChunkSize => {
                    self.feed_chunk_size(line);
                },
                Stage::Trailer => {
                    self.feed_trailer(line);
                },
                _ => {
                    self.fail(Error::TransportIo);
                },
            },
            _ => {},
        }
    }

    fn feed_bytes(&mut self, bytes: Vec<u8>)
        ensures
            final(self)@ == after_bytes(old(self)@, bytes@),
    {
        match self.state {
            State::AwaitStatusLine => {
                self.fail(Error::TransportIo);
            },
            State::AwaitHeaders => {
                self.fail(Error::TransportIo);
            },
            State::AwaitBody => {
                let counts = match self.stage {
                    Stage::Fixed => true,
                    Stage::ChunkData => true,
                    _ => false,
                };
                if counts && 0 < bytes.len() && bytes.len() <= self.remaining {
                    match self.stage {
                        Stage::ChunkData => {
                            let left = if self.remaining > 2 {
                                self.remaining - 2
                            } else {
                                0
                            };
                            let share = if bytes.len() <= left {
                                bytes.len()
                            } else {
                                left
                            };
                            let mut k: usize = 0;
                            while k < share
                                invariant
                                    k <= share <= bytes.len(),
                                    self.payload@ == old(self).payload@ + bytes@.take(k as int),
                                    self@ == (AssemblerView {
                                        payload: self.payload@,
                                        ..old(self)@
                                    }),
                                decreases share - k,
                            {
                                self.payload.push(bytes[k]);
                                k += 1;
                            }
                        },
                        _ => {},
                    }
                    append_bytes(&mut self.gathered, &bytes);
                    self.remaining = self.remaining - bytes.len();
                    if self.remaining == 0 {
                        match self.stage {
                            Stage::Fixed => {
                                let mut all: Vec<u8> = Vec::new();
                                append_bytes(&mut all, &self.gathered);
                                assert(all@ == self.gathered@);
                                let body = body_from_payload(Some(all));
                                self.finish(body);
                            },
                            _ => {
                                self.stage = Stage::ChunkSize;
                            },
                        }
                    }
                } else {
                    self.fail(Error::TransportIo);
                }
            },
            _ => {},
        }
    }

    /// Hands one event to the assembler.
    pub fn feed(&mut self, event: Event)
        ensures
            final(self)@ == after(old(self)@, event@),
    {
        match event {
            Event::Line(line) => self.feed_line(line),
            Event::Bytes(bytes) => self.feed_bytes(bytes),
        }
    }

    /// How the assembler ended.
    pub fn into_result(self) -> (r: Result<Response, Error>)
        ensures
            match r {
                Ok(res) => outcome(self@) == Ok::<ResponseView, Error>(res@),
                Err(e) => outcome(self@) == Err::<ResponseView, Error>(e),
            },
    {
        match self.state {
            State::Done => {
                let header_count = self.headers.len();
                let cookie_count = self.cookies.len();
                let warnings: Vec<String> = Vec::new();
                assert(string_views(warnings@) == Seq::<Seq<char>>::empty());
                Ok(
                    Response {
                        protocol: self.protocol,
                        status: self.status,
                        status_text: self.status_text,
                        headers: self.headers,
                        header_count,
                        cookies: self.cookies,
                        cookie_count,
                        body: self.body,
                        warnings,
                    },
                )
            },
            State::Malformed => match self.error {
                Some(e) => Err(e),
                None => Err(Error::TransportIo),
            },
            _ => Err(Error::TransportIo),
        }
    }
}

/// The index after the first line feed at or after `from`; the length of the
/// bytes where none follows.
pub open spec fn line_end_from(wire: Seq<u8>, from: int) -> int
    decreases wire.len() - from,
{
    if from < 0 || from >= wire.len() {
        from
    } else if wire[from] == 10 {
        from + 1
    } else {
        line_end_from(wire, from + 1)
    }
}

/// The assembler after it was driven over the bytes from index `from` on.
///
/// Where it wants a line it gets the bytes up to and with the next line
/// feed, or what is left; where it wants bytes it gets as many as it wants,
/// or what is left. Where nothing is left it gets the empty event once, and
/// that is the end.
pub open spec fn run_from(s: AssemblerView, wire: Seq<u8>, from: int) -> AssemblerView
    decreases wire.len() - from,
{
    match wanted(s) {
        Want::Nothing => s,
        Want::Line => {
            let to = line_end_from(wire, from);
            if 0 <= from < to <= wire.len() {
                run_from(after_line(s, wire.subrange(from, to)), wire, to)
            } else {
                after_line(s, Seq::empty())
            }
        },
        Want::Bytes(n) => {
            let to = if from + n <= wire.len() {
                from + n
            } else {
                wire.len() as int
            };
            if 0 <= from < to <= wire.len() {
                run_from(after_bytes(s, wire.subrange(from, to)), wire, to)
            } else {
                after_bytes(s, Seq::empty())
            }
        },
    }
}

/// The response that the bytes of a whole response hold.
pub open spec fn response_in(wire: Seq<u8>) -> Result<ResponseView, Error> {
    outcome(run_from(initial(), wire, 0))
}

/// A copy of the bytes from `lo` up to `hi`.
fn bytes_of(wire: &[u8], lo: usize, hi: usize) -> (r: Vec<u8>)
    requires
        lo <= hi <= wire@.len(),
    ensures
        r@ == wire@.subrange(lo as int, hi as int),
{
    let mut r: Vec<u8> = Vec::new();
    let mut i: usize = lo;
    while i < hi
        invariant
            lo <= i <= hi <= wire@.len(),
            r@ == wire@.subrange(lo as int, i as int),
        decreases hi - i,
    {
        r.push(wire[i]);
        i += 1;
    }
    r
}

/// The index after the first line feed at or after `from`.
fn next_line_end(wire: &[u8], from: usize) -> (to: usize)
    requires
        from <= wire@.len(),
    ensures
        to == line_end_from(wire@, from as int),
        from <= to <= wire@.len(),
{
    let mut i: usize = from;
    while i < wire.len()
        invariant
            from <= i <= wire@.len(),
            line_end_from(wire@, from as int) == line_end_from(wire@, i as int),
        decreases wire@.len() - i,
    {
        if wire[i] == 10 {
            return i + 1;
        }
        i += 1;
    }
    i
}

/// Reads a whole response from bytes in memory.
///
/// Returns the response that the assembler builds when it is driven over
/// the bytes, or the error with which it fails.
pub fn read_response(wire: &[u8]) -> (r: Result<Response, Error>)
    ensures
        match r {
            Ok(res) => response_in(wire@) == Ok::<ResponseView, Error>(res@),
            Err(e) => response_in(wire@) == Err::<ResponseView, Error>(e),
        },
{
    let mut assembler = Assembler::new();
    let mut from: usize = 0;
    loop
        invariant_except_break
            from <= wire@.len(),
            run_from(initial(), wire@, 0) == run_from(assembler@, wire@, from as int),
        ensures
            assembler@ == run_from(initial(), wire@, 0),
        decreases wire@.len() - from,
    {
        match assembler.wants() {
            Want::Nothing => {
                break ;
            },
            Want::Line => {
                let to = next_line_end(wire, from);
                if from < to {
                    assembler.feed(Event::Line(bytes_of(wire, from, to)));
                    from = to;
                } else {
                    assembler.feed(Event::Line(Vec::new()));
                    break ;
                }
            },
            Want::Bytes(n) => {
                let to = if n <= wire.len() - from {
                    from + n
                } else {
                    wire.len()
                };
                if from < to {
                    assembler.feed(Event::Bytes(bytes_of(wire, from, to)));
                    from = to;
                } else {
                    assembler.feed(Event::Bytes(Vec::new()));
                    break ;
                }
            },
        }
    }
    assembler.into_result()
}

/// The line that the driver cuts: the bytes up to the first line feed, and
/// with it.
pub proof fn lemma_line_is_cut(wire: Seq<u8>, from: int, to: int)
    requires
        0 <= from < to <= wire.len(),
        wire[to - 1] == 10,
        forall|i: int| from <= i < to - 1 ==> wire[i] != 10,
    ensures
        line_end_from(wire, from) == to,
    decreases to - from,
{
    if from < to - 1 {
        lemma_line_is_cut(wire, from + 1, to);
    }
}

/// Driving the assembler over bytes is feeding it the events that the bytes
/// hold: where it wants a line, the next line and on from behind it; where
/// it wants bytes and that many are there, those bytes and on from behind
/// them; and where it wants nothing, it stays as it is.
pub proof fn lemma_driven(s: AssemblerView, wire: Seq<u8>, from: int, to: int)
    requires
        0 <= from < to <= wire.len(),
        match wanted(s) {
            Want::Line => wire[to - 1] == 10 && forall|i: int|
                from <= i < to - 1 ==> wire[i] != 10,
            Want::Bytes(n) => to == from + n,
            Want::Nothing => true,
        },
    ensures
        run_from(s, wire, from) == match wanted(s) {
            Want::Line => run_from(after_line(s, wire.subrange(from, to)), wire, to),
            Want::Bytes(n) => run_from(after_bytes(s, wire.subrange(from, to)), wire, to),
            Want::Nothing => s,
        },
{
    if wanted(s) == Want::Line {
        lemma_line_is_cut(wire, from, to);
    }
}

/// Reading is a function of the bytes: two readings of the same bytes give
/// the same response, field for field, or the same error.
pub proof fn lemma_same_bytes_same_response(
    wire: Seq<u8>,
    first: Result<ResponseView, Error>,
    second: Result<ResponseView, Error>,
)
    requires
        first == response_in(wire),
        second == response_in(wire),
    ensures
        first == second,
{
}

/// The headers and cookies are what the lines of the raw head hold, read
/// one after the other.
pub open spec fn head_is_read(s: AssemblerView) -> bool {
    head_lines_read(Seq::empty(), Seq::empty(), s.raw_head, 0) == Ok::<
        (Seq<(Seq<char>, Seq<char>)>, Seq<(Seq<char>, CookieView)>),
        Error,
    >((s.headers, s.cookies))
}

/// What holds of an assembler however it was driven: the headers and the
/// cookies are those of the lines of the raw head, nothing of the body is
/// gathered before the head is read, bytes are wanted only where some are
/// due, a body of fixed length is as long as the headers say once it is all
/// gathered, and an assembler has an error exactly where it has failed.
pub open spec fn well_formed(s: AssemblerView) -> bool {
    match s.state {
        State::AwaitStatusLine => s.raw_head.len() == 0 && s.headers.len() == 0
            && s.cookies.len() == 0 && s.gathered.len() == 0 && s.body is None && s.error
            is None,
        State::AwaitHeaders => head_is_read(s) && s.gathered.len() == 0 && s.body is None
            && s.error is None,
        State::ResolveFraming => head_is_read(s) && s.gathered.len() == 0 && s.body is None
            && s.error is None,
        State::AwaitBody => head_is_read(s) && s.body is None && s.error is None && match s.stage {
            Stage::Fixed => s.remaining > 0 && framing_of(s.headers) == Framing::FixedLength(
                (s.gathered.len() + s.remaining) as usize,
            ),
            Stage::ChunkData => s.remaining > 0,
            _ => true,
        },
        State::Done => head_is_read(s) && s.error is None,
        State::Malformed => s.error is Some,
    }
}

/// A new assembler is well formed, and every event leaves a well-formed
/// assembler well formed.
pub proof fn lemma_well_formed(s: AssemblerView, e: EventView)
    requires
        well_formed(s),
    ensures
        well_formed(initial()),
        well_formed(after(s, e)),
{
    match e {
        EventView::Line(line) => {
            if s.state == State::AwaitHeaders {
                if is_empty_line(line) {
                    assert(s.gathered + Seq::<u8>::empty() == s.gathered);
                } else {
                    match text_of_bytes(line) {
                        Some(text) => {
                            let longer = s.raw_head.push(text);
                            assert(longer.drop_last() == s.raw_head);
                            lemma_head_lines_read_last(Seq::empty(), Seq::empty(), longer, 0);
                        },
                        None => {},
                    }
                }
            } else if s.state == State::AwaitStatusLine {
                assert(s.headers == Seq::<(Seq<char>, Seq<char>)>::empty());
                assert(s.cookies == Seq::<(Seq<char>, CookieView)>::empty());
            }
        },
        EventView::Bytes(bytes) => {},
    }
}

/// Round-trip framing: where the head of a response gives a `Content-Length`
/// of the number of bytes that follow, and those bytes are text in UTF-8,
/// the assembler asks for that many bytes and ends with a body whose bytes
/// are exactly those bytes.
pub proof fn lemma_fixed_length_body(s: AssemblerView, length: Seq<char>, body: Seq<u8>)
    requires
        well_formed(s),
        s.state == State::AwaitHeaders,
        lookup_ignore_case(s.headers, "Content-Length"@) == Some(length),
        parse_number(length, false) == Some(body.len()),
        0 < body.len() <= usize::MAX,
        valid_utf8(body),
    ensures
        ({
            let waiting = after_line(s, seq![13u8, 10u8]);
            let end = after_bytes(waiting, body);
            &&& wanted(waiting) == Want::Bytes(body.len() as usize)
            &&& end.state == State::Done
            &&& end.body matches Some(text)
            &&& encode_utf8(text) == body
            &&& encode_utf8(text).len() == body.len()
        }),
{
    assert(is_empty_line(seq![13u8, 10u8]));
    assert(framing_of(s.headers) == Framing::FixedLength(body.len() as usize));
    assert(s.gathered + body == body);
    vstd::utf8::decode_utf8_encode_utf8(body);
    let text = decode_utf8(body);
    assert(text.len() > 0) by {
        if text.len() == 0 {
            assert(encode_utf8(text) == Seq::<u8>::empty());
        }
    }
}

/// A request and the response that echoes it: where the head of a response
/// gives the `Content-Length` that the serializer writes for a request, and
/// the bytes of the body of that request follow, the assembler ends with the
/// text of that body.
pub proof fn lemma_round_trip_framing(q: RequestView, s: AssemblerView)
    requires
        well_formed(s),
        s.state == State::AwaitHeaders,
        carries_body(q.request_type),
        0 < body_bytes(q).len() <= usize::MAX,
        lookup_ignore_case(s.headers, "Content-Length"@) == Some(
            decimal_text(body_bytes(q).len()),
        ),
    ensures
        ({
            let end = after_bytes(after_line(s, seq![13u8, 10u8]), body_bytes(q));
            &&& end.state == State::Done
            &&& q.body matches Some(sent)
            &&& end.body == Some(sent.1)
            &&& encode_utf8(sent.1).len() == body_bytes(q).len()
        }),
{
    let sent = q.body->0;
    crate::text::lemma_decimal_round_trip(body_bytes(q).len());
    vstd::utf8::encode_utf8_valid_utf8(sent.1);
    vstd::utf8::encode_utf8_decode_utf8(sent.1);
    lemma_fixed_length_body(s, decimal_text(body_bytes(q).len()), body_bytes(q));
}

/// Short reads: while a body of fixed length is read, two runs of bytes that
/// come one after the other count as the one run that they make together.
pub proof fn lemma_short_reads(s: AssemblerView, first: Seq<u8>, second: Seq<u8>)
    requires
        s.state == State::AwaitBody,
        s.stage == Stage::Fixed,
        0 < first.len(),
        0 < second.len(),
        first.len() + second.len() <= s.remaining,
    ensures
        after_bytes(after_bytes(s, first), second) == after_bytes(s, first + second),
{
    assert((s.gathered + first) + second == s.gathered + (first + second));
}

/// One chunk: where the assembler waits for the size of a chunk and gets
/// the line of a size that is not 0, it asks for that many bytes and the two
/// of a line end; when they have come, the bytes of the chunk are added to
/// the payload, the line end is not, and the assembler waits for the size of
/// the next chunk.
pub proof fn lemma_chunk_joins_payload(s: AssemblerView, line: Seq<u8>, data: Seq<u8>)
    requires
        s.state == State::AwaitBody,
        s.stage == Stage::ChunkSize,
        text_of_bytes(line) matches Some(text) && chunk_size_of(text) == Some(
            data.len() as usize,
        ),
        0 < data.len() <= usize::MAX - 2,
    ensures
        ({
            let waiting = after_line(s, line);
            let end = after_bytes(waiting, data + seq![13u8, 10u8]);
            &&& wanted(waiting) == Want::Bytes((data.len() + 2) as usize)
            &&& end.state == State::AwaitBody
            &&& end.stage == Stage::ChunkSize
            &&& end.payload == s.payload + data
            &&& end.gathered == s.gathered + line + data + seq![13u8, 10u8]
        }),
{
    let waiting = after_line(s, line);
    let bytes = data + seq![13u8, 10u8];
    assert(payload_share(waiting, bytes) == data.len());
    assert(bytes.take(data.len() as int) == data);
    assert((s.gathered + line) + bytes == s.gathered + line + data + seq![13u8, 10u8]);
}

/// The last chunk: the line of the size 0 adds nothing to the payload, and
/// trailer lines after it are dropped.
pub proof fn lemma_last_chunk(s: AssemblerView, line: Seq<u8>, trailer: Seq<u8>)
    requires
        s.state == State::AwaitBody,
        s.stage == Stage::ChunkSize,
        text_of_bytes(line) matches Some(text) && chunk_size_of(text) == Some(0usize),
        trailer.len() > 0,
        !is_empty_line(trailer),
    ensures
        after_line(s, line) == (AssemblerView {
            stage: Stage::Trailer,
            gathered: s.gathered + line,
            ..s
        }),
        after_line(after_line(s, line), trailer) == after_line(s, line),
{
}

/// The body of a response in chunks: where the assembler is done after the
/// empty line that ends the chunks, the body is the text of the payload, the
/// bytes of the chunks one after the other, and nothing else.
pub proof fn lemma_chunked_body(s: AssemblerView)
    requires
        s.state == State::AwaitBody,
        s.stage == Stage::Trailer,
        after_line(s, seq![13u8, 10u8]).state == State::Done,
    ensures
        valid_utf8(s.payload),
        after_line(s, seq![13u8, 10u8]).body == crate::utils::text_as_body(
            decode_utf8(s.payload),
        ),
        chunked_payload(s.gathered + seq![13u8, 10u8]) == Some(s.payload),
{
    assert(is_empty_line(seq![13u8, 10u8]));
}

/// The order of reading: the assembler wants bytes only while it reads a
/// body, and it comes to read a body only from the head, at the empty line
/// that ends the head.
pub proof fn lemma_head_before_body(s: AssemblerView, e: EventView)
    ensures
        wanted(s) is Bytes ==> s.state == State::AwaitBody,
        after(s, e).state == State::AwaitBody && s.state != State::AwaitBody ==> s.state
            == State::AwaitHeaders && e == EventView::Line(seq![13u8, 10u8]),
{
    match e {
        EventView::Line(line) => {
            if after(s, e).state == State::AwaitBody && s.state != State::AwaitBody {
                assert(is_empty_line(line));
                assert(line == seq![13u8, 10u8]);
            }
        },
        EventView::Bytes(_) => {},
    }
}

/// A response always has a status: where the first line holds none, the
/// assembler fails with `MalformedStatusLine` and builds no response.
pub proof fn lemma_no_status_no_response(line: Seq<u8>)
    requires
        match text_of_bytes(line) {
            Some(text) => status_line_of(text) is None,
            None => true,
        },
    ensures
        after_line(initial(), line).state == State::Malformed,
        outcome(after_line(initial(), line)) == Err::<ResponseView, Error>(
            Error::MalformedStatusLine,
        ),
{
}

/// The end is final: an assembler that is done or has failed wants nothing
/// and is changed by no event.
pub proof fn lemma_end_is_final(s: AssemblerView, e: EventView)
    requires
        s.state == State::Done || s.state == State::Malformed,
    ensures
        wanted(s) == Want::Nothing,
        after(s, e) == s,
{
}

/// The bytes of a line end alone, and no other text, make the empty line.
pub proof fn lemma_empty_line(text: Seq<char>)
    ensures
        text_of_bytes(encode_utf8(text)) == Some(text),
        is_empty_line(encode_utf8(text)) <==> text == line_end(),
{
    vstd::utf8::encode_utf8_valid_utf8(text);
    vstd::utf8::encode_utf8_decode_utf8(text);
    let end = line_end();
    vstd::utf8::encode_utf8_decode_utf8(end);
    assert(vstd::utf8::is_ascii_chars(end));
    vstd::utf8::is_ascii_chars_encode_utf8(end);
    let bytes = encode_utf8(end);
    assert(bytes.len() == 2 && bytes[0] == 13 && bytes[1] == 10);
    if is_empty_line(encode_utf8(text)) {
        assert(encode_utf8(text) == bytes);
    }
}

/// The assembler after the given lines of text were fed to it, each as its
/// bytes in UTF-8, one after the other.
pub open spec fn fed_lines(s: AssemblerView, lines: Seq<Seq<char>>) -> AssemblerView
    decreases lines.len(),
{
    if lines.len() == 0 {
        s
    } else {
        after_line(fed_lines(s, lines.drop_last()), encode_utf8(lines.last()))
    }
}

/// Reading the lines of a head up to the last, and then the last, is
/// reading them all.
proof fn lemma_head_lines_read_last(
    headers: Seq<(Seq<char>, Seq<char>)>,
    cookies: Seq<(Seq<char>, CookieView)>,
    lines: Seq<Seq<char>>,
    from: int,
)
    requires
        0 <= from < lines.len(),
    ensures
        head_lines_read(headers, cookies, lines, from) == match head_lines_read(
            headers,
            cookies,
            lines.drop_last(),
            from,
        ) {
            Ok((h, c)) => head_line_read(h, c, lines.last()),
            Err(e) => Err(e),
        },
    decreases lines.len() - from,
{
    let shorter = lines.drop_last();
    if from == lines.len() - 1 {
        assert(head_lines_read(headers, cookies, shorter, from) == Ok::<
            (Seq<(Seq<char>, Seq<char>)>, Seq<(Seq<char>, CookieView)>),
            Error,
        >((headers, cookies)));
        match head_line_read(headers, cookies, lines[from]) {
            Ok((h, c)) => {
                assert(head_lines_read(h, c, lines, from + 1) == Ok::<
                    (Seq<(Seq<char>, Seq<char>)>, Seq<(Seq<char>, CookieView)>),
                    Error,
                >((h, c)));
            },
            Err(e) => {},
        }
    } else {
        assert(shorter[from] == lines[from]);
        match head_line_read(headers, cookies, lines[from]) {
            Ok((h, c)) => {
                lemma_head_lines_read_last(h, c, lines, from + 1);
            },
            Err(e) => {},
        }
    }
}

/// The assembler and `new_response` read a head alike: after the lines of a
/// head, none of them the empty line, the assembler holds the status, the
/// headers and the cookies of the response that `new_response` builds from
/// those lines, and where `new_response` gives an error, the assembler has
/// failed with the same error.
pub proof fn lemma_head_agrees(head: Seq<Seq<char>>)
    requires
        head.len() >= 1,
        forall|i: int| 1 <= i < head.len() ==> head[i] != line_end(),
    ensures
        match response_of(Seq::empty(), head) {
            Ok(r) => fed_lines(initial(), head) == (AssemblerView {
                state: State::AwaitHeaders,
                protocol: r.protocol,
                status: r.status,
                status_text: r.status_text,
                raw_head: head.skip(1),
                headers: r.headers,
                cookies: r.cookies,
                ..initial()
            }),
            Err(e) => fed_lines(initial(), head) == failed(fed_lines(initial(), head), e),
        },
    decreases head.len(),
{
    lemma_empty_line(head.last());
    let shorter = head.drop_last();
    if head.len() == 1 {
        assert(fed_lines(initial(), shorter) == initial());
        assert(head.skip(1) == Seq::<Seq<char>>::empty());
    } else {
        assert(shorter[0] == head[0]);
        lemma_head_agrees(shorter);
        assert(shorter.skip(1).push(head.last()) == head.skip(1));
        match status_line_of(head[0]) {
            None => {},
            Some(_) => {
                lemma_head_lines_read_last(Seq::empty(), Seq::empty(), head, 1);
            },
        }
    }
}

/// The assembler and `new_response` build the same response: where the
/// lines of a head are followed by the empty line and by the bytes of a body
/// of the length that the head gives, the assembler ends with the response
/// that `new_response` builds from the lines and the text of the body.
pub proof fn lemma_response_agrees(head: Seq<Seq<char>>, body: Seq<u8>)
    requires
        head.len() >= 1,
        forall|i: int| 1 <= i < head.len() ==> head[i] != line_end(),
        response_of(Seq::empty(), head) matches Ok(r) && framing_of(r.headers)
            == Framing::FixedLength(body.len() as usize),
        0 < body.len() <= usize::MAX,
        valid_utf8(body),
    ensures
        outcome(
            after_bytes(after_line(fed_lines(initial(), head), seq![13u8, 10u8]), body),
        ) == response_of(decode_utf8(body), head),
{
    lemma_head_agrees(head);
    let s = fed_lines(initial(), head);
    assert(is_empty_line(seq![13u8, 10u8]));
    assert(s.gathered + body == body);
}

/// A response without a body: where the lines of a head that asks for no
/// body are followed by the empty line, the assembler ends with the response
/// that `new_response` builds from the lines and an empty body.
pub proof fn lemma_bare_response_agrees(head: Seq<Seq<char>>)
    requires
        head.len() >= 1,
        forall|i: int| 1 <= i < head.len() ==> head[i] != line_end(),
        response_of(Seq::empty(), head) matches Ok(r) && (framing_of(r.headers)
            == Framing::NoBody || framing_of(r.headers) == Framing::FixedLength(0)),
    ensures
        outcome(after_line(fed_lines(initial(), head), seq![13u8, 10u8])) == response_of(
            Seq::empty(),
            head,
        ),
{
    lemma_head_agrees(head);
    assert(is_empty_line(seq![13u8, 10u8]));
}

} // verus!
