//! Building a response from its head and body, and naming a denial.

use crate::map::{inserted, OrderedMap};
use crate::structs::{string_views, Cookie, CookieView, Response, ResponseView};
use crate::text::{chars_of, matches_here, starts_with};
use crate::types::Error;
use crate::utils::parsers::{
    cookie_marker, cookie_of, header_of, parse_cookie, parse_header, parse_status_line,
    status_line_of,
};
use vstd::prelude::*;

pub mod parsers;

verus! {

/// The headers and the cookies after one line of a head was read.
///
/// A line that begins with `Set-Cookie:` is read as a cookie and written
/// under the name of the cookie; any other line is read as a header and
/// written under its name. A line that holds neither is an error.
pub open spec fn head_line_read(
    headers: Seq<(Seq<char>, Seq<char>)>,
    cookies: Seq<(Seq<char>, CookieView)>,
    line: Seq<char>,
) -> Result<(Seq<(Seq<char>, Seq<char>)>, Seq<(Seq<char>, CookieView)>), Error> {
    if starts_with(line, cookie_marker()) {
        match cookie_of(line) {
            Some(c) => Ok((headers, inserted(cookies, c.name, c))),
            None => Err(Error::MalformedCookie),
        }
    } else {
        match header_of(line) {
            Some(h) => Ok((inserted(headers, h.name, h.value), cookies)),
            None => Err(Error::MalformedHeader),
        }
    }
}

/// The headers and the cookies after the lines from index `from` on were
/// read, one after the other; the error of the first line that holds
/// neither.
pub open spec fn head_lines_read(
    headers: Seq<(Seq<char>, Seq<char>)>,
    cookies: Seq<(Seq<char>, CookieView)>,
    lines: Seq<Seq<char>>,
    from: int,
) -> Result<(Seq<(Seq<char>, Seq<char>)>, Seq<(Seq<char>, CookieView)>), Error>
    decreases lines.len() - from,
{
    if from < 0 || from >= lines.len() {
        Ok((headers, cookies))
    } else {
        match head_line_read(headers, cookies, lines[from]) {
            Ok((h, c)) => head_lines_read(h, c, lines, from + 1),
            Err(e) => Err(e),
        }
    }
}

/// The body of a response that carries the given text: none where the text
/// is empty.
pub open spec fn text_as_body(text: Seq<char>) -> Option<Seq<char>> {
    if text.len() > 0 {
        Some(text)
    } else {
        None
    }
}

/// The response that a head and a body hold.
///
/// The first line of the head is the status line; each further line is a
/// header or a cookie. The response has no warnings. A head without lines,
/// or with a line that cannot be read, gives the error of that line.
pub open spec fn response_of(body: Seq<char>, head: Seq<Seq<char>>) -> Result<
    ResponseView,
    Error,
> {
    if head.len() == 0 {
        Err(Error::MalformedStatusLine)
    } else {
        match status_line_of(head[0]) {
            None => Err(Error::MalformedStatusLine),
            Some((protocol, status, status_text)) => match head_lines_read(
                Seq::empty(),
                Seq::empty(),
                head,
                1,
            ) {
                Err(e) => Err(e),
                Ok((headers, cookies)) => Ok(
                    ResponseView {
                        protocol,
                        status,
                        status_text,
                        headers,
                        header_count: headers.len() as usize,
                        cookies,
                        cookie_count: cookies.len() as usize,
                        body: text_as_body(body),
                        warnings: Seq::empty(),
                    },
                ),
            },
        }
    }
}

/// Reads one line of a head into the headers and the cookies.
///
/// Where the line cannot be read, both are unchanged.
pub fn read_head_line(
    headers: &mut OrderedMap<String>,
    cookies: &mut OrderedMap<Cookie>,
    line: &String,
) -> (r: Result<(), Error>)
    ensures
        match r {
            Ok(_) => head_line_read(old(headers)@, old(cookies)@, line@) == Ok::<
                (Seq<(Seq<char>, Seq<char>)>, Seq<(Seq<char>, CookieView)>),
                Error,
            >((final(headers)@, final(cookies)@)),
            Err(e) => head_line_read(old(headers)@, old(cookies)@, line@) == Err::<
                (Seq<(Seq<char>, Seq<char>)>, Seq<(Seq<char>, CookieView)>),
                Error,
            >(e) && final(headers)@ == old(headers)@ && final(cookies)@ == old(cookies)@,
        },
{
    let all = chars_of(line.as_str());
    let marker = chars_of("Set-Cookie:");
    if matches_here(&all, &marker, 0) {
        match parse_cookie(line.clone()) {
            Ok(c) => {
                cookies.insert(c.name.clone(), c);
                Ok(())
            },
            Err(e) => Err(e),
        }
    } else {
        match parse_header(line.clone()) {
            Ok(h) => {
                headers.insert(h.name, h.value);
                Ok(())
            },
            Err(e) => Err(e),
        }
    }
}

/// Builds the response that a head and a body hold.
///
/// `head` holds the status line and, after it, the header and cookie lines.
/// Returns the error of the first line that cannot be read.
pub fn new_response(body_text: String, head: Vec<String>) -> (r: Result<Response, Error>)
    ensures
        match r {
            Ok(res) => response_of(body_text@, string_views(head@)) == Ok::<ResponseView, Error>(
                res@,
            ),
            Err(e) => response_of(body_text@, string_views(head@)) == Err::<ResponseView, Error>(
                e,
            ),
        },
{
    let ghost lines = string_views(head@);
    if head.len() == 0 {
        return Err(Error::MalformedStatusLine);
    }
    assert(lines[0] == head[0]@);
    let (protocol, status, status_text) = match parse_status_line(head[0].as_str()) {
        Ok(t) => t,
        Err(e) => {
            return Err(e);
        },
    };
    let mut headers: OrderedMap<String> = OrderedMap::new();
    let mut cookies: OrderedMap<Cookie> = OrderedMap::new();
    let mut i: usize = 1;
    while i < head.len()
        invariant
            1 <= i <= head.len(),
            lines == string_views(head@),
            status_line_of(lines[0]) == Some((protocol@, status, status_text@)),
            head_lines_read(Seq::empty(), Seq::empty(), lines, 1) == head_lines_read(
                headers@,
                cookies@,
                lines,
                i as int,
            ),
        decreases head.len() - i,
    {
        assert(lines[i as int] == head[i as int]@);
        match read_head_line(&mut headers, &mut cookies, &head[i]) {
            Ok(_) => {},
            Err(e) => {
                return Err(e);
            },
        }
        i += 1;
    }
    let header_count = headers.len();
    let cookie_count = cookies.len();
    let warnings: Vec<String> = Vec::new();
    assert(string_views(warnings@) == Seq::<Seq<char>>::empty());
    let body = if body_text.as_str().is_empty() {
        None
    } else {
        Some(body_text)
    };
    Ok(
        Response {
            protocol,
            status,
            status_text,
            headers,
            header_count,
            cookies,
            cookie_count,
            body,
            warnings,
        },
    )
}

/// The reason with which a preflight denies the method.
pub open spec fn method_reason() -> Seq<char> {
    "Method not allowed"@
}

/// The denial that a reason stands for: the method where the reason is
/// `Method not allowed`, the origin for any other reason.
pub open spec fn error_of_reason(reason: Seq<char>) -> Error {
    if reason == method_reason() {
        Error::CrossOriginResourceMethodDisallowed
    } else {
        Error::CrossOriginResourceOriginDisallowed
    }
}

/// The denial that a reason stands for.
pub fn parse_err_reason(reason: String) -> (e: Error)
    ensures
        e == error_of_reason(reason@),
{
    if reason == "Method not allowed".to_owned() {
        Error::CrossOriginResourceMethodDisallowed
    } else {
        Error::CrossOriginResourceOriginDisallowed
    }
}

} // verus!
