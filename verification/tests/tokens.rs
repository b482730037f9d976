use curio::definitions::domain::Domain;
use curio::definitions::uniform_resource_identifier::URI;
use curio::map::OrderedMap;
use curio::structs::{ClientConfig, HTTPtype, Request, RequestType, Response};
use curio::text::{
    chars_of, contains_text, find_in, join_text, parse_isize, parse_usize, same_ignore_case,
    split_text, string_of, trim_text, words_of,
};
use curio::types::Error;
use curio::utils::parsers::{parse_cookie, parse_header, parse_status_line, parse_url};

fn text(s: &str) -> Vec<char> {
    s.chars().collect()
}

#[test]
fn header_is_split_at_the_first_separator() {
    let header = parse_header("Location: https://example.com/a: b\r\n".to_string()).unwrap();
    assert_eq!(header.name, "Location");
    assert_eq!(header.value, "https://example.com/a: b");
}

#[test]
fn header_name_keeps_its_case_and_spaces() {
    let header = parse_header("Transfer-Encoding : Chunked".to_string()).unwrap();
    assert_eq!(header.name, "Transfer-Encoding ");
    assert_eq!(header.value, "Chunked");
    let header = parse_header("x-Mixed-CASE: v\r\n".to_string()).unwrap();
    assert_eq!(header.name, "x-Mixed-CASE");
}

#[test]
fn header_value_loses_line_ends() {
    let header = parse_header("A: one\r\ntwo\r\n".to_string()).unwrap();
    assert_eq!(header.value, "onetwo");
    let header = parse_header("A: \r\n".to_string()).unwrap();
    assert_eq!(header.value, "");
}

#[test]
fn header_without_separator_is_refused() {
    assert_eq!(parse_header("NoSeparator\r\n".to_string()).unwrap_err(), Error::MalformedHeader);
    assert_eq!(parse_header("A:b\r\n".to_string()).unwrap_err(), Error::MalformedHeader);
    assert_eq!(parse_header("".to_string()).unwrap_err(), Error::MalformedHeader);
}

#[test]
fn cookie_value_may_be_empty() {
    let cookie = parse_cookie("Set-Cookie: session=\r\n".to_string()).unwrap();
    assert_eq!(cookie.name, "session");
    assert_eq!(cookie.value, "");
    let cookie = parse_cookie("Set-Cookie: flag".to_string()).unwrap();
    assert_eq!(cookie.name, "flag");
    assert_eq!(cookie.value, "");
}

#[test]
fn cookie_value_keeps_equal_signs() {
    let cookie = parse_cookie("Set-Cookie: token=a=b==; Secure".to_string()).unwrap();
    assert_eq!(cookie.value, "a=b==");
    assert!(cookie.secure);
}

#[test]
fn cookie_attributes_are_matched_as_written() {
    let cookie = parse_cookie(
        "Set-Cookie: a=1; Expires=Wed, 21 Oct 2015 07:28:00 GMT; Path=/docs; Domain=example.com; Max-Age=-5; SameSite=Strict"
            .to_string(),
    )
    .unwrap();
    assert_eq!(cookie.expires, Some("Wed, 21 Oct 2015 07:28:00 GMT".to_string()));
    assert_eq!(cookie.path, Some("/docs".to_string()));
    assert_eq!(cookie.domain, Some("example.com".to_string()));
    assert_eq!(cookie.max_age, Some(-5));
    assert_eq!(cookie.same_site, Some("Strict".to_string()));
    let cookie =
        parse_cookie("Set-Cookie: a=1; PATH=/; httponly; samesite=Lax; SECURE".to_string()).unwrap();
    assert_eq!(cookie.path, None);
    assert!(!cookie.http_only);
    assert_eq!(cookie.same_site, None);
    assert!(!cookie.secure);
}

#[test]
fn cookie_ignores_unknown_attributes() {
    let cookie = parse_cookie("Set-Cookie: a=1; Priority=High; path=/a; path=/b".to_string()).unwrap();
    assert_eq!(cookie.path, Some("/b".to_string()));
    assert_eq!(cookie.name, "a");
}

#[test]
fn cookie_lines_that_hold_none_are_refused() {
    assert_eq!(parse_cookie("Cookie: a=1".to_string()).unwrap_err(), Error::MalformedCookie);
    assert_eq!(parse_cookie("Set-Cookie: =1".to_string()).unwrap_err(), Error::MalformedCookie);
    assert_eq!(parse_cookie("Set-Cookie:".to_string()).unwrap_err(), Error::MalformedCookie);
    assert_eq!(
        parse_cookie("Set-Cookie: a=1; Max-Age=soon".to_string()).unwrap_err(),
        Error::MalformedCookie
    );
}

#[test]
fn status_lines() {
    assert_eq!(
        parse_status_line("HTTP/1.1 404 Not Found\r\n").unwrap(),
        ("HTTP/1.1".to_string(), 404, "Not Found".to_string())
    );
    assert_eq!(
        parse_status_line("HTTP/1.0   200\r\n").unwrap(),
        ("HTTP/1.0".to_string(), 200, "".to_string())
    );
    assert_eq!(
        parse_status_line("HTTP/1.1 301   TLS \t Redirect").unwrap(),
        ("HTTP/1.1".to_string(), 301, "TLS Redirect".to_string())
    );
    assert_eq!(parse_status_line("HTTP/1.1 +200 OK").unwrap().1, 200);
    assert_eq!(parse_status_line("HTTP/1.1 2x0 OK").unwrap_err(), Error::MalformedStatusLine);
    assert_eq!(parse_status_line("   ").unwrap_err(), Error::MalformedStatusLine);
    assert_eq!(
        parse_status_line("HTTP/1.1 99999999999999999999999999 OK").unwrap_err(),
        Error::MalformedStatusLine
    );
}

#[test]
fn urls_are_taken_apart() {
    assert_eq!(
        parse_url(&"https://raw.githubusercontent.com/fatalcenturion/Curio/master/README.md".to_string())
            .unwrap(),
        (
            HTTPtype::HTTPS,
            "raw.githubusercontent.com".to_string(),
            443,
            "/fatalcenturion/Curio/master/README.md".to_string()
        )
    );
    assert_eq!(
        parse_url(&"http://example.com".to_string()).unwrap(),
        (HTTPtype::HTTP, "example.com".to_string(), 80, "/".to_string())
    );
    assert_eq!(
        parse_url(&"HTTP://localhost:8080/a?b=c".to_string()).unwrap(),
        (HTTPtype::HTTP, "localhost".to_string(), 8080, "/a?b=c".to_string())
    );
}

#[test]
fn urls_that_cannot_be_read_are_refused() {
    for url in [
        "example.com/path",
        "ftp://example.com/",
        "http:///path",
        "http://:80/",
        "http://example.com:port/",
        "http://example.com:65536/",
        "http://example.com:/",
        "",
    ] {
        assert_eq!(parse_url(&url.to_string()).unwrap_err(), Error::InvalidUrl, "{}", url);
        assert_eq!(URI::new(url).unwrap_err(), Error::InvalidUrl, "{}", url);
        assert_eq!(Request::get(url).unwrap_err(), Error::InvalidUrl, "{}", url);
    }
}

#[test]
fn domains_are_split_into_labels() {
    let uri = URI::new("http://static.cdn.example.org/a").unwrap();
    assert_eq!(uri.domain.sub, Some("static.cdn".to_string()));
    assert_eq!(uri.domain.host, "example");
    assert_eq!(uri.domain.tld, "org");
    assert_eq!(uri.domain.port, 80);
    assert_eq!(uri.protocol, HTTPtype::HTTP);
    let uri = URI::new("https://localhost").unwrap();
    assert_eq!(uri.domain.sub, None);
    assert_eq!(uri.domain.host, "localhost");
    assert_eq!(uri.domain.tld, "");
    assert_eq!(uri.domain.port, 443);
    assert_eq!(uri.path, "/");
    let domain = Domain::new(Some("www"), "example", "com", 8080).unwrap();
    assert_eq!(domain.sub, Some("www".to_string()));
    assert_eq!(domain.host, "example");
    assert_eq!(domain.tld, "com");
    assert_eq!(domain.port, 8080);
    let parsed = Domain::parse("a.b", 1);
    assert_eq!((parsed.sub, parsed.host.as_str(), parsed.tld.as_str()), (None, "a", "b"));
}

#[test]
fn requests_are_built_from_urls() {
    let request = Request::post("https://paste.mod.gg/documents").unwrap();
    assert_eq!(request.request_type, RequestType::POST);
    assert_eq!(request.url_string, "https://paste.mod.gg/documents");
    assert_eq!(request.domain, "paste.mod.gg");
    assert_eq!(request.port, 443);
    assert_eq!(request.path, "/documents");
    assert_eq!(request.protocol, HTTPtype::HTTPS);
    assert_eq!(request.body, None);
    assert_eq!(request.header_count, 0);
    assert_eq!(Request::head("http://a.b/").unwrap().request_type, RequestType::HEAD);
    assert_eq!(Request::delete("http://a.b/").unwrap().request_type, RequestType::DELETE);
    assert_eq!(Request::options("http://a.b/").unwrap().request_type, RequestType::OPTIONS);
}

#[test]
fn headers_of_a_request_are_set_in_order() {
    let mut request = Request::get("http://a.b/").unwrap();
    request.set_header("A", "1").set_header("B", "2").set_header("A", "3");
    assert_eq!(request.header_count, 2);
    assert_eq!(request.headers.key_at(0), "B");
    assert_eq!(request.headers.key_at(1), "A");
    assert_eq!(request.headers.get("A"), Some(&"3".to_string()));
}

#[test]
fn map_keeps_the_last_write() {
    let mut map: OrderedMap<String> = OrderedMap::new();
    assert_eq!(map.len(), 0);
    map.insert("k".to_string(), "1".to_string());
    map.insert("K".to_string(), "2".to_string());
    map.insert("k".to_string(), "3".to_string());
    assert_eq!(map.len(), 2);
    assert_eq!(map.get("k"), Some(&"3".to_string()));
    assert_eq!(map.get("K"), Some(&"2".to_string()));
    assert_eq!(map.get_ignore_case("K"), Some(&"3".to_string()));
    assert_eq!(map.get("x"), None);
    assert!(map.contains_key("K"));
    assert!(!map.contains_key("x"));
    assert_eq!(map.value_at(0), "2");
}

#[test]
fn response_is_built_from_head_and_body() {
    let head = vec![
        "HTTP/1.1 200 OK\r\n".to_string(),
        "Content-Type: text/plain\r\n".to_string(),
        "Set-Cookie: a=1\r\n".to_string(),
        "Set-Cookie: b=2; HttpOnly\r\n".to_string(),
    ];
    let response = Response::new("hello".to_string(), head).unwrap();
    assert_eq!(response.status, 200);
    assert_eq!(response.header_count, 1);
    assert_eq!(response.cookie_count, 2);
    assert!(response.cookies.get("b").unwrap().http_only);
    assert_eq!(response.body, Some("hello".to_string()));
    assert!(response.warnings.is_empty());
    assert_eq!(Response::new(String::new(), vec![]).unwrap_err(), Error::MalformedStatusLine);
    assert_eq!(
        Response::new(String::new(), vec!["HTTP/1.1 200 OK".to_string(), "bad".to_string()])
            .unwrap_err(),
        Error::MalformedHeader
    );
}

#[test]
fn default_settings() {
    let config = ClientConfig::default();
    assert_eq!(config.redirect_limit, 10);
    assert_eq!(config.max_queue_length, 10);
    assert_eq!(config.connection_limit, 5);
    assert!(config.auto_upgrade && config.perform_preflight);
    assert!(!config.no_parse && !config.force_https && !config.cycle_connections);
}

#[test]
fn text_is_searched_and_split() {
    assert_eq!(string_of(&chars_of("h\u{e9}llo")), "h\u{e9}llo");
    assert_eq!(find_in(&text("a: b: c"), &text(": "), 0), Some(1));
    assert_eq!(find_in(&text("a: b: c"), &text(": "), 2), Some(4));
    assert_eq!(find_in(&text("abc"), &text("abcd"), 0), None);
    assert_eq!(find_in(&text("abc"), &text(""), 3), Some(3));
    assert!(contains_text(&text("see https://x"), &text("https://")));
    assert!(!contains_text(&text("see http://x"), &text("https://")));
    assert_eq!(split_text(&text("a;;b;"), &text(";")), vec![text("a"), text(""), text("b"), text("")]);
    assert_eq!(split_text(&text(""), &text(";")), vec![text("")]);
    assert_eq!(split_text(&text("abc"), &text("")), vec![text("abc")]);
    let parts = vec![text("a"), text("b"), text("c")];
    assert_eq!(join_text(&parts, 0, 3, &text(", ")), text("a, b, c"));
    assert_eq!(join_text(&parts, 1, 2, &text(", ")), text("b"));
    assert_eq!(join_text(&parts, 2, 2, &text(", ")), text(""));
    assert_eq!(trim_text(&text("  a b  ")), text("a b"));
    assert_eq!(trim_text(&text("   ")), text(""));
    assert_eq!(words_of(&text(" a\tb\r\n c ")), vec![text("a"), text("b"), text("c")]);
    assert!(same_ignore_case(&text("Content-Length"), &text("content-length")));
    assert!(!same_ignore_case(&text("Content-Length"), &text("content_length")));
}

#[test]
fn numbers_are_read() {
    assert_eq!(parse_usize(&text("0012"), false), Some(12));
    assert_eq!(parse_usize(&text("fF"), true), Some(255));
    assert_eq!(parse_usize(&text("ff"), false), None);
    assert_eq!(parse_usize(&text(""), false), None);
    assert_eq!(parse_usize(&text("+1"), false), None);
    assert_eq!(parse_usize(&text(&usize::MAX.to_string()), false), Some(usize::MAX));
    assert_eq!(parse_usize(&text(&format!("{}0", usize::MAX)), false), None);
    assert_eq!(parse_isize(&text("-0")), Some(0));
    assert_eq!(parse_isize(&text("+42")), Some(42));
    assert_eq!(parse_isize(&text(&isize::MIN.to_string())), Some(isize::MIN));
    assert_eq!(parse_isize(&text(&isize::MAX.to_string())), Some(isize::MAX));
    assert_eq!(parse_isize(&text(&format!("{}", isize::MAX as u128 + 1))), None);
    assert_eq!(parse_isize(&text("-")), None);
    assert_eq!(parse_isize(&text("--1")), None);
}
