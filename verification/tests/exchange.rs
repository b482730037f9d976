use curio::exchange::{
    transport_error, Directive, Phase, Session, TransportFailure, TransportKind,
};
use curio::preflight::{preflight, verb_listed, PreflightOutcome};
use curio::serializer::serialize;
use curio::structs::{PostData, Request, RequestType, Response};
use curio::types::{classify_status, err_from_code, Error, ErrorKind};
use curio::utils::parse_err_reason;

fn response(lines: &[&str]) -> Response {
    let head: Vec<String> = lines.iter().map(|l| l.to_string()).collect();
    Response::new(String::new(), head).unwrap()
}

fn dispatch_of(directive: Directive) -> curio::exchange::Dispatch {
    match directive {
        Directive::Send(d) => d,
        Directive::Finish(r) => panic!("the call ended: {:?}", r),
    }
}

fn result_of(directive: Directive) -> Result<Response, Error> {
    match directive {
        Directive::Finish(r) => r,
        Directive::Send(d) => panic!("another request is sent: {:?}", d),
    }
}

#[test]
fn get_request_on_the_wire() {
    let mut request = Request::get("http://example.com/index.html").unwrap();
    request.set_header("Accept", "text/html");
    let bytes = serialize(&request);
    assert_eq!(
        String::from_utf8(bytes).unwrap(),
        "GET /index.html HTTP/1.1\r\nAccept: text/html\r\nHost: example.com\r\nUser-Agent: Curio/0.1.0\r\nConnection: close\r\n\r\n"
    );
}

#[test]
fn post_request_on_the_wire() {
    let mut request = Request::post("http://example.com/documents").unwrap();
    request.set_body(&PostData::from_str("h\u{e9}llo, world"));
    let bytes = serialize(&request);
    assert_eq!(
        String::from_utf8(bytes).unwrap(),
        "POST /documents HTTP/1.1\r\nHost: example.com\r\nUser-Agent: Curio/0.1.0\r\nConnection: close\r\nContent-Length: 13\r\nContent-Type: application/json\r\n\r\nh\u{e9}llo, world"
    );
}

#[test]
fn post_without_body_has_length_zero() {
    let request = Request::post("http://example.com").unwrap();
    assert_eq!(
        String::from_utf8(serialize(&request)).unwrap(),
        "POST / HTTP/1.1\r\nHost: example.com\r\nUser-Agent: Curio/0.1.0\r\nConnection: close\r\nContent-Length: 0\r\n\r\n"
    );
}

#[test]
fn form_is_joined() {
    let form = PostData::from_tuple(vec![("author", "Altrius"), ("n", "1"), ("author", "B")]);
    assert_eq!(
        form.deserialize(),
        ("application/x-www-form-urlencoded".to_string(), "n=1&author=B".to_string())
    );
    assert_eq!(
        PostData::from_str("text").deserialize(),
        ("application/json".to_string(), "text".to_string())
    );
}

#[test]
fn preflight_denies_unlisted_method() {
    let answer = response(&[
        "HTTP/1.1 204 No Content\r\n",
        "Access-Control-Allow-Origin: https://example.com\r\n",
        "Access-Control-Allow-Methods: GET\r\n",
    ]);
    let decision = preflight(&answer, RequestType::DELETE);
    assert_eq!(decision.outcome, PreflightOutcome::DeniedMethod);
    assert_eq!(decision.verb, RequestType::DELETE);
}

#[test]
fn preflight_table() {
    let both = response(&[
        "HTTP/1.1 204 No Content\r\n",
        "Access-Control-Allow-Origin: *\r\n",
        "Access-Control-Allow-Methods: GET, POST\r\n",
    ]);
    assert_eq!(preflight(&both, RequestType::POST).outcome, PreflightOutcome::Allowed);
    assert_eq!(preflight(&both, RequestType::PUT).outcome, PreflightOutcome::DeniedMethod);
    let closed_origin = response(&[
        "HTTP/1.1 204 No Content\r\n",
        "Access-Control-Allow-Origin: https://example.com\r\n",
        "Allow: GET, POST\r\n",
    ]);
    assert_eq!(preflight(&closed_origin, RequestType::GET).outcome, PreflightOutcome::DeniedOrigin);
    let origin_only = response(&["HTTP/1.1 204 No Content\r\n", "Access-Control-Allow-Origin: *\r\n"]);
    assert_eq!(preflight(&origin_only, RequestType::PATCH).outcome, PreflightOutcome::Allowed);
    let origin_only_closed =
        response(&["HTTP/1.1 204 No Content\r\n", "Access-Control-Allow-Origin: null\r\n"]);
    assert_eq!(
        preflight(&origin_only_closed, RequestType::GET).outcome,
        PreflightOutcome::DeniedOrigin
    );
    let methods_only = response(&["HTTP/1.1 204 No Content\r\n", "allow: HEAD,GET\r\n"]);
    assert_eq!(preflight(&methods_only, RequestType::GET).outcome, PreflightOutcome::Allowed);
    assert_eq!(preflight(&methods_only, RequestType::POST).outcome, PreflightOutcome::DeniedMethod);
    let neither = response(&["HTTP/1.1 404 Not Found\r\n"]);
    assert_eq!(preflight(&neither, RequestType::DELETE).outcome, PreflightOutcome::Allowed);
    assert!(verb_listed("GET , POST", "GET"));
    assert!(!verb_listed("GETS", "GET"));
}

#[test]
fn denial_reasons_name_their_errors() {
    let method = PreflightOutcome::DeniedMethod;
    assert_eq!(method.reason(), Some("Method not allowed".to_string()));
    assert_eq!(parse_err_reason(method.reason().unwrap()), method.error().unwrap());
    let origin = PreflightOutcome::DeniedOrigin;
    assert_eq!(parse_err_reason(origin.reason().unwrap()), origin.error().unwrap());
    assert_eq!(PreflightOutcome::Allowed.reason(), None);
    assert_eq!(PreflightOutcome::Allowed.error(), None);
}

#[test]
fn call_starts_with_preflight() {
    let request = Request::get("http://example.com/a").unwrap();
    let (session, first) = Session::begin(request);
    assert_eq!(session.phase(), Phase::Preflight);
    let first = dispatch_of(first);
    assert_eq!(first.host, "example.com");
    assert_eq!(first.port, 80);
    assert_eq!(first.transport, TransportKind::Plain);
    assert_eq!(first.timeout_secs, 20);
    assert!(String::from_utf8(first.payload).unwrap().starts_with("OPTIONS /a HTTP/1.1\r\n"));
}

#[test]
fn options_call_has_no_preflight() {
    let request = Request::options("https://example.com/a").unwrap();
    let (session, first) = Session::begin(request);
    assert_eq!(session.phase(), Phase::Main);
    let first = dispatch_of(first);
    assert_eq!(first.port, 443);
    assert_eq!(first.transport, TransportKind::Secure);
}

#[test]
fn allowed_call_delivers_the_response() {
    let (mut session, _) = Session::begin(Request::get("http://example.com/a").unwrap());
    let main = dispatch_of(session.on_response(response(&["HTTP/1.1 204 No Content\r\n"])));
    assert_eq!(session.phase(), Phase::Main);
    assert!(String::from_utf8(main.payload).unwrap().starts_with("GET /a HTTP/1.1\r\n"));
    let result = result_of(session.on_response(response(&["HTTP/1.1 200 OK\r\n"]))).unwrap();
    assert_eq!(result.status, 200);
    assert!(result.warnings.is_empty());
    assert_eq!(session.phase(), Phase::Closed);
}

#[test]
fn denied_call_ends_with_the_denial() {
    let (mut session, _) = Session::begin(Request::delete("http://example.com/a").unwrap());
    let answer = response(&[
        "HTTP/1.1 204 No Content\r\n",
        "Access-Control-Allow-Origin: https://example.com\r\n",
        "Access-Control-Allow-Methods: GET\r\n",
    ]);
    assert_eq!(
        result_of(session.on_response(answer)).unwrap_err(),
        Error::CrossOriginResourceMethodDisallowed
    );
}

#[test]
fn redirect_to_https_is_followed_once() {
    let (mut session, _) = Session::begin(Request::options("http://example.com/a").unwrap());
    let redirect = ["HTTP/1.1 301 Moved Permanently\r\n", "Location: https://example.com/a\r\n"];
    let again = dispatch_of(session.on_response(response(&redirect)));
    assert_eq!(again.transport, TransportKind::Secure);
    assert_eq!(again.port, 443);
    assert_eq!(again.host, "example.com");
    assert!(session.upgraded());
    let result = result_of(session.on_response(response(&["HTTP/1.1 200 OK\r\n"]))).unwrap();
    assert_eq!(
        result.warnings,
        vec!["This request was automatically upgraded to HTTPS at the request of the server."
            .to_string()]
    );
}

#[test]
fn second_redirect_to_https_is_fatal() {
    let (mut session, _) = Session::begin(Request::options("http://example.com/a").unwrap());
    let redirect = ["HTTP/1.1 301 Moved Permanently\r\n", "Location: https://example.com/a\r\n"];
    let _ = dispatch_of(session.on_response(response(&redirect)));
    assert_eq!(
        result_of(session.on_response(response(&redirect))).unwrap_err(),
        Error::TooManyUpgrades
    );
    assert_eq!(session.phase(), Phase::Closed);
    assert_eq!(
        result_of(session.on_response(response(&redirect))).unwrap_err(),
        Error::EXXXUnknownError(0)
    );
}

#[test]
fn other_redirects_are_reported() {
    let (mut session, _) = Session::begin(Request::options("http://example.com/a").unwrap());
    let redirect = ["HTTP/1.1 301 Moved Permanently\r\n", "Location: http://example.org/\r\n"];
    assert_eq!(result_of(session.on_response(response(&redirect))).unwrap().status, 301);
}

#[test]
fn error_statuses_end_the_call() {
    let (mut session, _) = Session::begin(Request::options("http://example.com/a").unwrap());
    assert_eq!(
        result_of(session.on_response(response(&["HTTP/1.1 404 Not Found\r\n"]))).unwrap_err(),
        Error::E404NotFound
    );
}

#[test]
fn failures_end_the_call() {
    let (mut session, _) = Session::begin(Request::get("http://example.com/a").unwrap());
    let error = transport_error(TransportFailure::Timeout);
    assert_eq!(error, Error::TimeoutError);
    assert_eq!(result_of(session.on_failure(error)).unwrap_err(), Error::TimeoutError);
    assert_eq!(transport_error(TransportFailure::Connect), Error::ConnectFailed);
    assert_eq!(transport_error(TransportFailure::Handshake), Error::TlsHandshakeFailed);
    assert_eq!(transport_error(TransportFailure::Io), Error::TransportIo);
}

#[test]
fn codes_have_their_errors() {
    assert_eq!(err_from_code(404), Error::E404NotFound);
    assert_eq!(err_from_code(404).code(), Some(404));
    assert_eq!(err_from_code(1), Error::CrossOriginResourceMethodDisallowed);
    assert_eq!(err_from_code(2), Error::CrossOriginResourceOriginDisallowed);
    assert_eq!(err_from_code(9), Error::TooManyUpgrades);
    assert_eq!(err_from_code(0), Error::EXXXUnknownError(0));
    assert_eq!(err_from_code(499), Error::EXXXUnknownError(499));
    assert_eq!(err_from_code(499).code(), Some(499));
    assert_eq!(classify_status(200), None);
    assert_eq!(classify_status(399), None);
    assert_eq!(classify_status(400), Some(Error::E400BadRequest));
    assert_eq!(classify_status(501), Some(Error::E501NotImplemented));
    assert_eq!(classify_status(70000), Some(Error::EXXXUnknownError(70000)));
    assert_eq!(Error::E404NotFound.to_string(), "HTTP 404 - Not Found");
    assert_eq!(Error::E404NotFound.description(), "The requested resource is unable to be located");
    assert_eq!(Error::E404NotFound.kind(), ErrorKind::Status);
    assert_eq!(Error::TimeoutError.kind(), ErrorKind::Transport);
    assert_eq!(Error::MalformedChunk.kind(), ErrorKind::Malformed);
    assert_eq!(Error::CrossOriginResourceOriginDisallowed.kind(), ErrorKind::Authorization);
    assert_eq!(Error::TooManyUpgrades.kind(), ErrorKind::Unknown);
}

#[test]
fn secure_transport_needs_a_host_name() {
    let (session, first) = Session::begin(Request::options("https://not a name/").unwrap());
    assert_eq!(result_of(first).unwrap_err(), Error::TlsHandshakeFailed);
    assert_eq!(session.phase(), Phase::Closed);
    let (mut session, first) = Session::begin(Request::options("http://not a name/").unwrap());
    assert_eq!(dispatch_of(first).transport, TransportKind::Plain);
    let redirect = ["HTTP/1.1 301 Moved Permanently\r\n", "Location: https://elsewhere/\r\n"];
    assert_eq!(
        result_of(session.on_response(response(&redirect))).unwrap_err(),
        Error::TlsHandshakeFailed
    );
    let (_, first) = Session::begin(Request::options("https://example.com/").unwrap());
    assert_eq!(dispatch_of(first).transport, TransportKind::Secure);
}

#[test]
fn denied_origin_ends_the_call() {
    let (mut session, _) = Session::begin(Request::get("http://example.com/a").unwrap());
    let answer = response(&[
        "HTTP/1.1 204 No Content\r\n",
        "Access-Control-Allow-Origin: https://example.com\r\n",
        "Access-Control-Allow-Methods: GET\r\n",
    ]);
    assert_eq!(
        result_of(session.on_response(answer)).unwrap_err(),
        Error::CrossOriginResourceOriginDisallowed
    );
}

#[test]
fn preflight_follows_an_upgrade_of_its_own() {
    let (mut session, _) = Session::begin(Request::get("http://example.com/a").unwrap());
    let redirect = ["HTTP/1.1 301 Moved Permanently\r\n", "Location: https://example.com/a\r\n"];
    let again = dispatch_of(session.on_response(response(&redirect)));
    assert_eq!(again.transport, TransportKind::Secure);
    assert!(String::from_utf8(again.payload).unwrap().starts_with("OPTIONS /a HTTP/1.1\r\n"));
    let main = dispatch_of(session.on_response(response(&["HTTP/1.1 204 No Content\r\n"])));
    assert_eq!(main.transport, TransportKind::Plain);
    assert!(!session.upgraded());
    assert_eq!(session.phase(), Phase::Main);
}
