//! One call from its request to its result: which request goes over which
//! transport next, and how the call ends.
//!
//! A session decides and sends nothing. It hands out a dispatch, the bytes
//! to send with the place to send them to; whoever drives it opens the
//! transport, writes the bytes, assembles the response and hands it back.
//! A call starts with a preflight unless it is an `OPTIONS` request itself,
//! follows a redirect to the secure scheme once for each request that it
//! sends, and ends with the response or with an error.

use crate::map::{lookup_ignore_case, OrderedMap};
use crate::preflight::{outcome_of, preflight};
use crate::serializer::{request_bytes, serialize};
use crate::structs::{
    string_views, HTTPtype, Request, RequestType, RequestView, Response, ResponseView,
};
use crate::text::{chars_of, contains, contains_text};
use crate::types::{classify_status, error_of_status, Error};
use vstd::prelude::*;

verus! {

/// The seconds within which a transport has to be opened.
pub const CONNECT_TIMEOUT_SECS: u64 = 20;

/// The port of the secure scheme.
pub const SECURE_PORT: usize = 443;

/// The two transports.
#[derive(Debug, Clone, Copy, PartialEq, Eq, Structural)]
pub enum TransportKind {
    /// A plain socket.
    Plain,
    /// A socket under TLS.
    Secure,
}

/// Why a transport failed.
#[derive(Debug, Clone, Copy, PartialEq, Eq, Structural)]
pub enum TransportFailure {
    /// The connection could not be opened.
    Connect,
    /// The connection was not opened in time.
    Timeout,
    /// The TLS handshake failed.
    Handshake,
    /// Reading or writing failed.
    Io,
}

/// The error of a failed transport.
pub open spec fn error_of_failure(f: TransportFailure) -> Error {
    match f {
        TransportFailure::Connect => Error::ConnectFailed,
        TransportFailure::Timeout => Error::TimeoutError,
        TransportFailure::Handshake => Error::TlsHandshakeFailed,
        TransportFailure::Io => Error::TransportIo,
    }
}

/// The error of a failed transport.
pub fn transport_error(f: TransportFailure) -> (e: Error)
    ensures
        e == error_of_failure(f),
        e.kind_of() == crate::types::ErrorKind::Transport,
{
    match f {
        TransportFailure::Connect => Error::ConnectFailed,
        TransportFailure::Timeout => Error::TimeoutError,
        TransportFailure::Handshake => Error::TlsHandshakeFailed,
        TransportFailure::Io => Error::TransportIo,
    }
}

/// Bytes to send, with where and how to send them.
#[derive(Debug, Clone)]
pub struct Dispatch {
    /// The host to connect to. Over the secure transport it is also the
    /// name that the certificate of the server is checked against.
    pub host: String,
    /// The port to connect to.
    pub port: usize,
    /// The transport to open.
    pub transport: TransportKind,
    /// The seconds within which the transport has to be opened.
    pub timeout_secs: u64,
    /// The bytes of the request.
    pub payload: Vec<u8>,
}

/// What a `Dispatch` holds.
pub struct DispatchView {
    pub host: Seq<char>,
    pub port: usize,
    pub transport: TransportKind,
    pub timeout_secs: u64,
    pub payload: Seq<u8>,
}

impl View for Dispatch {
    type V = DispatchView;

    open spec fn view(&self) -> DispatchView {
        DispatchView {
            host: self.host@,
            port: self.port,
            transport: self.transport,
            timeout_secs: self.timeout_secs,
            payload: self.payload@,
        }
    }
}

/// What the driver of a session has to do next.
#[derive(Debug)]
pub enum Directive {
    /// Open a new transport, send the bytes, and hand back the response.
    Send(Dispatch),
    /// The call is over, with this result.
    Finish(Result<Response, Error>),
}

/// What a `Directive` holds.
pub enum DirectiveView {
    Send(DispatchView),
    Finish(Result<ResponseView, Error>),
}

impl View for Directive {
    type V = DirectiveView;

    open spec fn view(&self) -> DirectiveView {
        match self {
            Directive::Send(d) => DirectiveView::Send(d@),
            Directive::Finish(Ok(r)) => DirectiveView::Finish(Ok(r@)),
            Directive::Finish(Err(e)) => DirectiveView::Finish(Err(*e)),
        }
    }
}

/// Which request of a call is under way.
#[derive(Debug, Clone, Copy, PartialEq, Eq, Structural)]
pub enum Phase {
    /// The `OPTIONS` request that asks what the server allows.
    Preflight,
    /// The request of the caller.
    Main,
    /// None: the call is over.
    Closed,
}

/// What a `Session` holds.
pub struct SessionView {
    /// The request of the caller.
    pub request: RequestView,
    pub phase: Phase,
    /// Whether the request under way was sent again over the secure
    /// transport.
    pub upgraded: bool,
}

/// The transport of a scheme.
pub open spec fn transport_of(protocol: HTTPtype) -> TransportKind {
    match protocol {
        HTTPtype::HTTP => TransportKind::Plain,
        HTTPtype::HTTPS => TransportKind::Secure,
    }
}

/// The `OPTIONS` request that goes before a request: to the same host and
/// path, without headers of the caller and without a body.
pub open spec fn probe_of(q: RequestView) -> RequestView {
    RequestView {
        request_type: RequestType::OPTIONS,
        body: None,
        headers: Seq::empty(),
        header_count: 0,
        ..q
    }
}

/// The request that is under way.
pub open spec fn current_request(s: SessionView) -> RequestView {
    if s.phase == Phase::Preflight {
        probe_of(s.request)
    } else {
        s.request
    }
}

/// The dispatch of a request: to its host, over the transport of its scheme
/// and to its port, or, where it is sent again as an upgrade, over the
/// secure transport to the port of the secure scheme.
pub open spec fn dispatch_of(q: RequestView, upgrade: bool) -> DispatchView {
    DispatchView {
        host: q.domain,
        port: if upgrade {
            SECURE_PORT
        } else {
            q.port
        },
        transport: if upgrade {
            TransportKind::Secure
        } else {
            transport_of(q.protocol)
        },
        timeout_secs: CONNECT_TIMEOUT_SECS,
        payload: request_bytes(q),
    }
}

/// Whether `webpki::DNSNameRef::try_from_ascii_str` takes the text as the
/// name of a host, so that a certificate can be checked against it.
pub uninterp spec fn is_dns_name(name: Seq<char>) -> bool;

/// Asks `webpki::DNSNameRef::try_from_ascii_str` whether it takes the text
/// as the name of a host. The answer is a function of the text alone, and
/// the contract gives it its name.
#[verifier::external_body]
fn dns_name_ok(name: &str) -> (ok: bool)
    ensures
        ok == is_dns_name(name@),
{
    match webpki::DNSNameRef::try_from_ascii_str(name) {
        Ok(_) => true,
        Err(_) => false,
    }
}

/// What becomes of a dispatch: it is sent, unless it asks for the secure
/// transport to a host whose name no certificate can be checked against, in
/// which case it fails with `TlsHandshakeFailed`.
pub open spec fn cleared(d: DispatchView, name_ok: bool) -> Result<DispatchView, Error> {
    if d.transport == TransportKind::Secure && !name_ok {
        Err(Error::TlsHandshakeFailed)
    } else {
        Ok(d)
    }
}

/// The session with a dispatch that is due: the dispatch is to be sent
/// where it is cleared, and where it is not the call ends with the error.
pub open spec fn sending(s: SessionView, d: DispatchView) -> (SessionView, DirectiveView) {
    match cleared(d, is_dns_name(d.host)) {
        Ok(d) => (s, DirectiveView::Send(d)),
        Err(e) => (closed(s), DirectiveView::Finish(Err(e))),
    }
}

/// The session at the start of a call, with what is sent first: the
/// preflight, or the request itself where it is an `OPTIONS` request.
pub open spec fn begun(q: RequestView) -> (SessionView, DirectiveView) {
    let s = SessionView {
        request: q,
        phase: if q.request_type == RequestType::OPTIONS {
            Phase::Main
        } else {
            Phase::Preflight
        },
        upgraded: false,
    };
    sending(s, dispatch_of(current_request(s), false))
}

/// The response asks for the secure scheme: its status is 301 and its
/// `Location` holds `https://`.
pub open spec fn asks_upgrade(r: ResponseView) -> bool {
    r.status == 301 && match lookup_ignore_case(r.headers, "Location"@) {
        Some(location) => contains(location, "https://"@),
        None => false,
    }
}

/// The note on a response that was fetched over the secure transport at the
/// request of the server.
pub open spec fn upgrade_warning() -> Seq<char> {
    "This request was automatically upgraded to HTTPS at the request of the server."@
}

/// The response as the caller gets it: with the note where the request was
/// upgraded.
pub open spec fn delivered(r: ResponseView, upgraded: bool) -> ResponseView {
    if upgraded {
        ResponseView { warnings: r.warnings.push(upgrade_warning()), ..r }
    } else {
        r
    }
}

/// The session after its call ended.
pub open spec fn closed(s: SessionView) -> SessionView {
    SessionView { phase: Phase::Closed, ..s }
}

/// The session after a response came back, with what to do next.
///
/// A response that asks for the secure scheme has the request under way
/// sent again over the secure transport, once; if the response to that asks
/// again, the call ends with `TooManyUpgrades`. Any other response to the
/// preflight is judged by the preflight gate: a denial ends the call with
/// its error, and an allowed request is sent. Whatever is sent has to be
/// cleared first. Any other response to the request of the caller ends the
/// call: with the error of its status where that is 400 or more, else with
/// the response. A session whose call is over answers with the unknown
/// error.
pub open spec fn answered(s: SessionView, r: ResponseView) -> (SessionView, DirectiveView) {
    if s.phase == Phase::Closed {
        (s, DirectiveView::Finish(Err(Error::EXXXUnknownError(0))))
    } else if asks_upgrade(r) {
        if s.upgraded {
            (closed(s), DirectiveView::Finish(Err(Error::TooManyUpgrades)))
        } else {
            sending(SessionView { upgraded: true, ..s }, dispatch_of(current_request(s), true))
        }
    } else if s.phase == Phase::Preflight {
        match outcome_of(r.headers, s.request.request_type).error_of() {
            None => sending(
                SessionView { phase: Phase::Main, upgraded: false, ..s },
                dispatch_of(s.request, false),
            ),
            Some(e) => (closed(s), DirectiveView::Finish(Err(e))),
        }
    } else {
        match error_of_status(r.status) {
            Some(e) => (closed(s), DirectiveView::Finish(Err(e))),
            None => (closed(s), DirectiveView::Finish(Ok(delivered(r, s.upgraded)))),
        }
    }
}

/// The session after the exchange under way failed: the call ends with the
/// error. A session whose call is over answers with the unknown error.
pub open spec fn broken(s: SessionView, e: Error) -> (SessionView, DirectiveView) {
    if s.phase == Phase::Closed {
        (s, DirectiveView::Finish(Err(Error::EXXXUnknownError(0))))
    } else {
        (closed(s), DirectiveView::Finish(Err(e)))
    }
}

/// Whether a response asks for the secure scheme.
pub fn wants_upgrade(r: &Response) -> (b: bool)
    ensures
        b == asks_upgrade(r@),
{
    if r.status != 301 {
        return false;
    }
    match r.headers.get_ignore_case("Location") {
        Some(location) => contains_text(&chars_of(location.as_str()), &chars_of("https://")),
        None => false,
    }
}

/// The `OPTIONS` request that goes before a request.
pub fn probe_for(q: &Request) -> (p: Request)
    ensures
        p@ == probe_of(q@),
{
    Request {
        request_type: RequestType::OPTIONS,
        url_string: q.url_string.clone(),
        domain: q.domain.clone(),
        port: q.port,
        path: q.path.clone(),
        protocol: q.protocol,
        body: None,
        headers: OrderedMap::new(),
        header_count: 0,
    }
}

/// The dispatch of a request.
pub fn dispatch(q: &Request, upgrade: bool) -> (d: Dispatch)
    ensures
        d@ == dispatch_of(q@, upgrade),
{
    let transport = if upgrade {
        TransportKind::Secure
    } else {
        match q.protocol {
            HTTPtype::HTTP => TransportKind::Plain,
            HTTPtype::HTTPS => TransportKind::Secure,
        }
    };
    Dispatch {
        host: q.domain.clone(),
        port: if upgrade {
            SECURE_PORT
        } else {
            q.port
        },
        transport,
        timeout_secs: CONNECT_TIMEOUT_SECS,
        payload: serialize(q),
    }
}

/// Decides what becomes of a dispatch, given whether the name of its host
/// is one that a certificate can be checked against.
pub fn clear_dispatch(d: Dispatch, name_ok: bool) -> (r: Result<Dispatch, Error>)
    ensures
        match r {
            Ok(out) => cleared(d@, name_ok) == Ok::<DispatchView, Error>(out@),
            Err(e) => cleared(d@, name_ok) == Err::<DispatchView, Error>(e),
        },
{
    match d.transport {
        TransportKind::Secure => {
            if name_ok {
                Ok(d)
            } else {
                Err(Error::TlsHandshakeFailed)
            }
        },
        TransportKind::Plain => Ok(d),
    }
}

/// Notes on a response that it was fetched over the secure transport at the
/// request of the server.
pub fn mark_upgraded(response: &mut Response)
    ensures
        final(response)@ == delivered(old(response)@, true),
{
    let ghost before = string_views(response.warnings@);
    response.warnings.push(
        "This request was automatically upgraded to HTTPS at the request of the server.".to_owned(),
    );
    assert(string_views(response.warnings@) == before.push(upgrade_warning()));
}

/// One call.
#[derive(Debug, Clone)]
pub struct Session {
    request: Request,
    phase: Phase,
    upgraded: bool,
}

impl View for Session {
    type V = SessionView;

    closed spec fn view(&self) -> SessionView {
        SessionView { request: self.request@, phase: self.phase, upgraded: self.upgraded }
    }
}

impl Session {
    /// Starts the call for a request, and says what to send first.
    pub fn begin(request: Request) -> (r: (Session, Directive))
        ensures
            (r.0@, r.1@) == begun(request@),
    {
        let phase = match request.request_type {
            RequestType::OPTIONS => Phase::Main,
            _ => Phase::Preflight,
        };
        let first = match phase {
            Phase::Preflight => dispatch(&probe_for(&request), false),
            _ => dispatch(&request, false),
        };
        let mut session = Session { request, phase, upgraded: false };
        let directive = session.send(first);
        (session, directive)
    }

    /// Hands out a dispatch that is due, or ends the call where the
    /// dispatch is not cleared.
    fn send(&mut self, d: Dispatch) -> (r: Directive)
        ensures
            (final(self)@, r@) == sending(old(self)@, d@),
    {
        let name_ok = dns_name_ok(d.host.as_str());
        match clear_dispatch(d, name_ok) {
            Ok(d) => Directive::Send(d),
            Err(e) => {
                self.phase = Phase::Closed;
                Directive::Finish(Err(e))
            },
        }
    }

    /// Which request of the call is under way.
    pub fn phase(&self) -> (p: Phase)
        ensures
            p == self@.phase,
    {
        self.phase
    }

    /// Whether the request under way was sent again over the secure
    /// transport.
    pub fn upgraded(&self) -> (b: bool)
        ensures
            b == self@.upgraded,
    {
        self.upgraded
    }

    /// The dispatch of the request under way.
    fn current_dispatch(&self, upgrade: bool) -> (d: Dispatch)
        ensures
            d@ == dispatch_of(current_request(self@), upgrade),
    {
        match self.phase {
            Phase::Preflight => dispatch(&probe_for(&self.request), upgrade),
            _ => dispatch(&self.request, upgrade),
        }
    }

    /// Takes the response to what was sent last, and says what to do next.
    pub fn on_response(&mut self, response: Response) -> (d: Directive)
        ensures
            (final(self)@, d@) == answered(old(self)@, response@),
    {
        match self.phase {
            Phase::Closed => {
                return Directive::Finish(Err(Error::EXXXUnknownError(0)));
            },
            _ => {},
        }
        if wants_upgrade(&response) {
            if self.upgraded {
                self.phase = Phase::Closed;
                return Directive::Finish(Err(Error::TooManyUpgrades));
            }
            let again = self.current_dispatch(true);
            self.upgraded = true;
            return self.send(again);
        }
        match self.phase {
            Phase::Preflight => {
                let decision = preflight(&response, self.request.request_type);
                match decision.outcome.error() {
                    None => {
                        self.phase = Phase::Main;
                        self.upgraded = false;
                        let main = dispatch(&self.request, false);
                        self.send(main)
                    },
                    Some(e) => {
                        self.phase = Phase::Closed;
                        Directive::Finish(Err(e))
                    },
                }
            },
            _ => {
                self.phase = Phase::Closed;
                match classify_status(response.status) {
                    Some(e) => Directive::Finish(Err(e)),
                    None => {
                        let mut response = response;
                        if self.upgraded {
                            mark_upgraded(&mut response);
                        }
                        Directive::Finish(Ok(response))
                    },
                }
            },
        }
    }

    /// Takes the failure of the exchange under way, and ends the call.
    pub fn on_failure(&mut self, e: Error) -> (d: Directive)
        ensures
            (final(self)@, d@) == broken(old(self)@, e),
    {
        match self.phase {
            Phase::Closed => Directive::Finish(Err(Error::EXXXUnknownError(0))),
            _ => {
                self.phase = Phase::Closed;
                Directive::Finish(Err(e))
            },
        }
    }
}

/// The upgrade bound: where two responses, one after the other, both ask
/// for the secure scheme, the first has the request sent again over the
/// secure transport, or ends the call where that cannot be, and the second
/// ends the call and sends nothing: with `TooManyUpgrades` where the request
/// was sent again.
pub proof fn lemma_second_upgrade_is_refused(
    s: SessionView,
    first: ResponseView,
    second: ResponseView,
)
    requires
        s.phase != Phase::Closed,
        !s.upgraded,
        asks_upgrade(first),
        asks_upgrade(second),
    ensures
        answered(s, first).1 matches DirectiveView::Send(d) ==> d == dispatch_of(
            current_request(s),
            true,
        ) && d.transport == TransportKind::Secure && answered(answered(s, first).0, second).1
            == DirectiveView::Finish(Err(Error::TooManyUpgrades)),
        answered(s, first).1 is Finish ==> answered(s, first).1 == DirectiveView::Finish(
            Err(Error::TlsHandshakeFailed),
        ),
        answered(answered(s, first).0, second).1 is Finish,
        answered(answered(s, first).0, second).0.phase == Phase::Closed,
{
}

/// A session that has sent its request again as an upgrade does not send
/// it a third time: the next response that asks for the secure scheme ends
/// the call.
pub proof fn lemma_upgrade_happens_once(s: SessionView, r: ResponseView)
    requires
        s.phase != Phase::Closed,
        s.upgraded,
        asks_upgrade(r),
    ensures
        answered(s, r) == (closed(s), DirectiveView::Finish(Err(Error::TooManyUpgrades))),
{
}

/// A response whose status is 400 or more never reaches the caller as a
/// response: the call ends with the error of the status.
pub proof fn lemma_error_status_is_an_error(s: SessionView, r: ResponseView)
    requires
        s.phase == Phase::Main,
        !asks_upgrade(r),
        r.status >= 400,
    ensures
        answered(s, r).1 matches DirectiveView::Finish(Err(e)) && e.status_code() == Some(
            r.status,
        ),
{
}

/// Once a call is over, nothing is sent for it any more.
pub proof fn lemma_closed_stays_closed(s: SessionView, r: ResponseView, e: Error)
    requires
        s.phase == Phase::Closed,
    ensures
        answered(s, r).0 == s && answered(s, r).1 is Finish,
        broken(s, e).0 == s && broken(s, e).1 is Finish,
{
}

} // verus!
