//! The tokenizers: one header line, one cookie line, one status line and
//! one address, each read into its record or refused.

use crate::structs::{Cookie, CookieView, HTTPtype, Header, HeaderView};
use crate::text::{
    chars_of, eq_ignore_case, find, find_in, join, join_text, parse_integer, parse_isize,
    parse_number, parse_usize, same_chars, same_ignore_case, slice_of, split, split_text,
    string_of, texts, trim, trim_text, words, words_of,
};
use crate::types::Error;
use vstd::prelude::*;

verus! {

/// The end of a line on the wire: carriage return, line feed.
pub open spec fn line_end() -> Seq<char> {
    seq!['\r', '\n']
}

/// The end of a line on the wire.
pub fn line_end_chars() -> (r: Vec<char>)
    ensures
        r@ == line_end(),
{
    let mut r: Vec<char> = Vec::new();
    r.push('\r');
    r.push('\n');
    r
}

/// `line` without the line end that it ends with, if it ends with one.
pub open spec fn without_line_end(line: Seq<char>) -> Seq<char> {
    if line.len() >= 2 && line[line.len() - 2] == '\r' && line[line.len() - 1] == '\n' {
        line.take(line.len() - 2)
    } else {
        line
    }
}

/// `line` without the line end that it ends with, if it ends with one.
pub fn strip_line_end(line: &Vec<char>) -> (r: Vec<char>)
    ensures
        r@ == without_line_end(line@),
{
    let n = line.len();
    if n >= 2 && line[n - 2] == '\r' && line[n - 1] == '\n' {
        slice_of(line, 0, n - 2)
    } else {
        let r = slice_of(line, 0, n);
        assert(line@.subrange(0, n as int) == line@);
        r
    }
}

/// The header that a line holds: the name is what stands before the first
/// `": "`, the value what stands after it, without any line end in it. A
/// line without `": "` holds no header.
pub open spec fn header_of(line: Seq<char>) -> Option<HeaderView> {
    let body = without_line_end(line);
    match find(body, seq![':', ' ']) {
        Some(i) if 0 <= i && i + 2 <= body.len() => Some(
            HeaderView {
                name: body.take(i),
                value: join(split(body.skip(i + 2), line_end()), Seq::empty()),
            },
        ),
        _ => None,
    }
}

/// Reads one header line.
///
/// Returns the header of the line, or `MalformedHeader` where the line
/// holds none.
pub fn parse_header(line: String) -> (r: Result<Header, Error>)
    ensures
        match r {
            Ok(h) => header_of(line@) == Some(h@),
            Err(e) => e == Error::MalformedHeader && header_of(line@) is None,
        },
{
    let all = chars_of(line.as_str());
    let body = strip_line_end(&all);
    let mut sep: Vec<char> = Vec::new();
    sep.push(':');
    sep.push(' ');
    assert(sep@ == seq![':', ' ']);
    match find_in(&body, &sep, 0) {
        None => Err(Error::MalformedHeader),
        Some(i) => {
            let name = slice_of(&body, 0, i);
            assert(body@.subrange(0, i as int) == body@.take(i as int));
            let rest = slice_of(&body, i + 2, body.len());
            assert(rest@ == body@.skip(i + 2));
            let pieces = split_text(&rest, &line_end_chars());
            let none: Vec<char> = Vec::new();
            let value = join_text(&pieces, 0, pieces.len(), &none);
            assert(texts(pieces@).subrange(0, pieces.len() as int) == texts(pieces@));
            Ok(Header { name: string_of(&name), value: string_of(&value) })
        },
    }
}

/// The marker that a cookie line begins with.
pub open spec fn cookie_marker() -> Seq<char> {
    "Set-Cookie:"@
}

/// The name and the value of one segment of a cookie line: what stands
/// before the first `=`, without the spaces around it, and what stands after
/// it. A segment without `=` is a name with an empty value.
pub open spec fn key_value(segment: Seq<char>) -> (Seq<char>, Seq<char>) {
    match find(segment, seq!['=']) {
        Some(i) if 0 <= i < segment.len() => (trim(segment.take(i)), segment.skip(i + 1)),
        _ => (trim(segment), Seq::empty()),
    }
}

/// The cookie after one attribute was read.
///
/// `HttpOnly` and `Secure` set their flags; `Expires`, `Path`, `Domain`,
/// `SameSite` and `Max-Age` store their values. The names are matched as
/// they are written here, and `secure`, `expires`, `path` and `domain` in
/// small letters as well. `Max-Age` asks for a whole number that an `isize`
/// holds: with anything else the line holds no cookie. An attribute of
/// another name changes nothing.
pub open spec fn with_attribute(c: CookieView, key: Seq<char>, value: Seq<char>) -> Option<
    CookieView,
> {
    if key == "HttpOnly"@ {
        Some(CookieView { http_only: true, ..c })
    } else if key == "Secure"@ || key == "secure"@ {
        Some(CookieView { secure: true, ..c })
    } else if key == "Expires"@ || key == "expires"@ {
        Some(CookieView { expires: Some(value), ..c })
    } else if key == "Path"@ || key == "path"@ {
        Some(CookieView { path: Some(value), ..c })
    } else if key == "Domain"@ || key == "domain"@ {
        Some(CookieView { domain: Some(value), ..c })
    } else if key == "SameSite"@ {
        Some(CookieView { same_site: Some(value), ..c })
    } else if key == "Max-Age"@ {
        match parse_integer(value) {
            Some(n) if isize::MIN <= n <= isize::MAX => Some(
                CookieView { max_age: Some(n as isize), ..c },
            ),
            _ => None,
        }
    } else {
        Some(c)
    }
}

/// The cookie after the attributes of the segments from index `from` on
/// were read, one after the other.
pub open spec fn with_attributes(c: CookieView, segments: Seq<Seq<char>>, from: int) -> Option<
    CookieView,
>
    decreases segments.len() - from,
{
    if from < 0 || from >= segments.len() {
        Some(c)
    } else {
        let (key, value) = key_value(segments[from]);
        match with_attribute(c, key, value) {
            Some(next) => with_attributes(next, segments, from + 1),
            None => None,
        }
    }
}

/// A cookie of the given name and value, without attributes.
pub open spec fn bare_cookie(name: Seq<char>, value: Seq<char>) -> CookieView {
    CookieView {
        name,
        value,
        expires: None,
        path: None,
        domain: None,
        http_only: false,
        same_site: None,
        secure: false,
        max_age: None,
    }
}

/// The cookie that a line holds.
///
/// The line begins with the marker `Set-Cookie:`. What follows, without the
/// line end, is cut at each `;`. The first segment is the name and the value
/// of the cookie, and each further segment is one attribute. A line without
/// the marker, with an empty name, or with a `Max-Age` that is no number,
/// holds no cookie.
pub open spec fn cookie_of(line: Seq<char>) -> Option<CookieView> {
    let marker = cookie_marker();
    let body = without_line_end(line);
    if body.len() >= marker.len() && body.take(marker.len() as int) == marker {
        let segments = split(body.skip(marker.len() as int), seq![';']);
        let (name, value) = key_value(segments[0]);
        if name.len() == 0 {
            None
        } else {
            with_attributes(bare_cookie(name, value), segments, 1)
        }
    } else {
        None
    }
}

/// The name and the value of one segment of a cookie line.
pub fn split_key_value(segment: &Vec<char>) -> (r: (Vec<char>, Vec<char>))
    ensures
        (r.0@, r.1@) == key_value(segment@),
{
    let mut eq: Vec<char> = Vec::new();
    eq.push('=');
    assert(eq@ == seq!['=']);
    match find_in(segment, &eq, 0) {
        Some(i) => {
            let key = slice_of(segment, 0, i);
            assert(segment@.subrange(0, i as int) == segment@.take(i as int));
            let value = slice_of(segment, i + 1, segment.len());
            assert(value@ == segment@.skip(i + 1));
            (trim_text(&key), value)
        },
        None => (trim_text(segment), Vec::new()),
    }
}

/// Reads one attribute into the cookie. Returns whether the attribute could
/// be read; where it could not, the cookie is unchanged.
pub fn apply_attribute(c: &mut Cookie, key: &Vec<char>, value: &Vec<char>) -> (ok: bool)
    ensures
        match with_attribute(old(c)@, key@, value@) {
            Some(next) => ok && final(c)@ == next,
            None => !ok && final(c)@ == old(c)@,
        },
{
    if same_chars(key, &chars_of("HttpOnly")) {
        c.http_only = true;
    } else if same_chars(key, &chars_of("Secure")) || same_chars(key, &chars_of("secure")) {
        c.secure = true;
    } else if same_chars(key, &chars_of("Expires")) || same_chars(key, &chars_of("expires")) {
        c.expires = Some(string_of(value));
    } else if same_chars(key, &chars_of("Path")) || same_chars(key, &chars_of("path")) {
        c.path = Some(string_of(value));
    } else if same_chars(key, &chars_of("Domain")) || same_chars(key, &chars_of("domain")) {
        c.domain = Some(string_of(value));
    } else if same_chars(key, &chars_of("SameSite")) {
        c.same_site = Some(string_of(value));
    } else if same_chars(key, &chars_of("Max-Age")) {
        match parse_isize(value) {
            Some(n) => {
                c.max_age = Some(n);
            },
            None => {
                return false;
            },
        }
    }
    true
}

/// Reads one cookie line.
///
/// Returns the cookie of the line, or `MalformedCookie` where the line
/// holds none.
pub fn parse_cookie(line: String) -> (r: Result<Cookie, Error>)
    ensures
        match r {
            Ok(c) => cookie_of(line@) == Some(c@),
            Err(e) => e == Error::MalformedCookie && cookie_of(line@) is None,
        },
{
    let all = chars_of(line.as_str());
    let body = strip_line_end(&all);
    let marker = chars_of("Set-Cookie:");
    if body.len() < marker.len() {
        return Err(Error::MalformedCookie);
    }
    let head = slice_of(&body, 0, marker.len());
    assert(head@ == body@.take(marker.len() as int));
    if !same_chars(&head, &marker) {
        return Err(Error::MalformedCookie);
    }
    let rest = slice_of(&body, marker.len(), body.len());
    assert(rest@ == body@.skip(marker.len() as int));
    let mut semicolon: Vec<char> = Vec::new();
    semicolon.push(';');
    assert(semicolon@ == seq![';']);
    let segments = split_text(&rest, &semicolon);
    let ghost parts = texts(segments@);
    let (name, value) = split_key_value(&segments[0]);
    if name.len() == 0 {
        return Err(Error::MalformedCookie);
    }
    let mut cookie = Cookie {
        name: string_of(&name),
        value: string_of(&value),
        expires: None,
        path: None,
        domain: None,
        http_only: false,
        same_site: None,
        secure: false,
        max_age: None,
    };
    assert(cookie@ == bare_cookie(name@, value@));
    let mut i: usize = 1;
    while i < segments.len()
        invariant
            1 <= i <= segments.len(),
            parts == texts(segments@),
            cookie_of(line@) == with_attributes(cookie@, parts, i as int),
        decreases segments.len() - i,
    {
        let (key, value) = split_key_value(&segments[i]);
        assert(parts[i as int] == segments[i as int]@);
        if !apply_attribute(&mut cookie, &key, &value) {
            return Err(Error::MalformedCookie);
        }
        i += 1;
    }
    Ok(cookie)
}

/// What the first line of a response holds: the protocol, the status and
/// the reason.
///
/// The words of the line are its runs of characters between white space.
/// The first word is the protocol and the second the status, a whole number
/// that an `isize` holds. The words after them, with one space between each
/// two, are the reason. A line of fewer than two words, or whose second word
/// is no such number, holds none of this.
pub open spec fn status_line_of(line: Seq<char>) -> Option<(Seq<char>, isize, Seq<char>)> {
    let w = words(line);
    if w.len() < 2 {
        None
    } else {
        match parse_integer(w[1]) {
            Some(n) if isize::MIN <= n <= isize::MAX => Some(
                (w[0], n as isize, join(w.skip(2), seq![' '])),
            ),
            _ => None,
        }
    }
}

/// Reads the first line of a response.
///
/// Returns the protocol, the status and the reason, or `MalformedStatusLine`
/// where the line does not hold them.
pub fn parse_status_line(line: &str) -> (r: Result<(String, isize, String), Error>)
    ensures
        match r {
            Ok(t) => status_line_of(line@) == Some((t.0@, t.1, t.2@)),
            Err(e) => e == Error::MalformedStatusLine && status_line_of(line@) is None,
        },
{
    let all = chars_of(line);
    let w = words_of(&all);
    if w.len() < 2 {
        return Err(Error::MalformedStatusLine);
    }
    assert(texts(w@)[0] == w[0]@ && texts(w@)[1] == w[1]@);
    match parse_isize(&w[1]) {
        None => Err(Error::MalformedStatusLine),
        Some(status) => {
            let mut space: Vec<char> = Vec::new();
            space.push(' ');
            assert(space@ == seq![' ']);
            let reason = join_text(&w, 2, w.len(), &space);
            assert(texts(w@).subrange(2, w.len() as int) == texts(w@).skip(2));
            Ok((string_of(&w[0]), status, string_of(&reason)))
        },
    }
}

/// The port that a scheme uses where the address names none.
pub open spec fn default_port(protocol: HTTPtype) -> usize {
    match protocol {
        HTTPtype::HTTP => 80,
        HTTPtype::HTTPS => 443,
    }
}

/// The scheme that a name stands for, whatever the case of its letters.
pub open spec fn scheme_of(name: Seq<char>) -> Option<HTTPtype> {
    if eq_ignore_case(name, "http"@) {
        Some(HTTPtype::HTTP)
    } else if eq_ignore_case(name, "https"@) {
        Some(HTTPtype::HTTPS)
    } else {
        None
    }
}

/// The host and the port of an authority: what stands before the first `:`
/// and the number after it, which is 65535 at most; without a `:`, the whole
/// authority and the port of the scheme. An empty host is refused.
pub open spec fn authority_of(authority: Seq<char>, protocol: HTTPtype) -> Option<
    (Seq<char>, usize),
> {
    match find(authority, seq![':']) {
        Some(i) if 0 <= i < authority.len() => match parse_number(authority.skip(i + 1), false) {
            Some(port) if port <= 65535 && i > 0 => Some((authority.take(i), port as usize)),
            _ => None,
        },
        _ => if authority.len() > 0 {
            Some((authority, default_port(protocol)))
        } else {
            None
        },
    }
}

/// The parts of an address: scheme, host, port and path.
///
/// The scheme stands before the first `://` and is `http` or `https`. The
/// authority follows, up to the next `/`, and the path is what stands from
/// that `/` on, or `/` where there is none.
pub open spec fn url_of(url: Seq<char>) -> Option<(HTTPtype, Seq<char>, usize, Seq<char>)> {
    match find(url, seq![':', '/', '/']) {
        Some(i) if 0 <= i && i + 3 <= url.len() => match scheme_of(url.take(i)) {
            Some(protocol) => {
                let rest = url.skip(i + 3);
                let (authority, path) = match find(rest, seq!['/']) {
                    Some(j) if 0 <= j <= rest.len() => (rest.take(j), rest.skip(j)),
                    _ => (rest, seq!['/']),
                };
                match authority_of(authority, protocol) {
                    Some((host, port)) => Some((protocol, host, port, path)),
                    None => None,
                }
            },
            None => None,
        },
        _ => None,
    }
}

/// Reads the host and the port of an authority.
pub fn parse_authority(authority: &Vec<char>, protocol: HTTPtype) -> (r: Option<
    (Vec<char>, usize),
>)
    ensures
        match r {
            Some(t) => authority_of(authority@, protocol) == Some((t.0@, t.1)),
            None => authority_of(authority@, protocol) is None,
        },
{
    let mut colon: Vec<char> = Vec::new();
    colon.push(':');
    assert(colon@ == seq![':']);
    match find_in(authority, &colon, 0) {
        Some(i) => {
            let digits = slice_of(authority, i + 1, authority.len());
            assert(digits@ == authority@.skip(i + 1));
            match parse_usize(&digits, false) {
                Some(port) => {
                    if port <= 65535 && i > 0 {
                        let host = slice_of(authority, 0, i);
                        assert(host@ == authority@.take(i as int));
                        Some((host, port))
                    } else {
                        None
                    }
                },
                None => None,
            }
        },
        None => {
            if authority.len() > 0 {
                let port: usize = match protocol {
                    HTTPtype::HTTP => 80,
                    HTTPtype::HTTPS => 443,
                };
                let host = slice_of(authority, 0, authority.len());
                assert(host@ == authority@);
                Some((host, port))
            } else {
                None
            }
        },
    }
}

/// Reads an address into scheme, host, port and path.
///
/// Returns `InvalidUrl` where the address holds no scheme of `http` or
/// `https`, no host, or a port that is no number up to 65535.
pub fn parse_url(url: &String) -> (r: Result<(HTTPtype, String, usize, String), Error>)
    ensures
        match r {
            Ok(t) => url_of(url@) == Some((t.0, t.1@, t.2, t.3@)),
            Err(e) => e == Error::InvalidUrl && url_of(url@) is None,
        },
{
    let all = chars_of(url.as_str());
    let mut mark: Vec<char> = Vec::new();
    mark.push(':');
    mark.push('/');
    mark.push('/');
    assert(mark@ == seq![':', '/', '/']);
    let i = match find_in(&all, &mark, 0) {
        Some(i) => i,
        None => {
            return Err(Error::InvalidUrl);
        },
    };
    let name = slice_of(&all, 0, i);
    assert(name@ == all@.take(i as int));
    let protocol = if same_ignore_case(&name, &chars_of("http")) {
        HTTPtype::HTTP
    } else if same_ignore_case(&name, &chars_of("https")) {
        HTTPtype::HTTPS
    } else {
        return Err(Error::InvalidUrl);
    };
    let rest = slice_of(&all, i + 3, all.len());
    assert(rest@ == all@.skip(i + 3));
    let mut slash: Vec<char> = Vec::new();
    slash.push('/');
    assert(slash@ == seq!['/']);
    let (authority, path) = match find_in(&rest, &slash, 0) {
        Some(j) => {
            let authority = slice_of(&rest, 0, j);
            assert(authority@ == rest@.take(j as int));
            let path = slice_of(&rest, j, rest.len());
            assert(path@ == rest@.skip(j as int));
            (authority, path)
        },
        None => {
            let authority = slice_of(&rest, 0, rest.len());
            assert(authority@ == rest@);
            (authority, slash)
        },
    };
    match parse_authority(&authority, protocol) {
        Some((host, port)) => Ok((protocol, string_of(&host), port, string_of(&path))),
        None => Err(Error::InvalidUrl),
    }
}

/// The port of an address that can be read is 65535 at most.
pub proof fn lemma_url_port(url: Seq<char>)
    ensures
        url_of(url) matches Some(t) ==> t.2 <= 65535,
{
}

} // verus!
