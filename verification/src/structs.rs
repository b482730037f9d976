//! The records of an exchange: request, response, header, cookie and form
//! data, each with the view that the contracts speak of.

use crate::map::{distinct_keys, inserted, lemma_inserted_distinct, lookup, OrderedMap};
use crate::text::{append_chars, chars_of, string_of};
use crate::types::Error;
use crate::utils::parsers::{parse_url, url_of};
use std::collections::HashMap;
use vstd::prelude::*;

pub mod errors;

verus! {

/// The text that an optional string holds.
pub open spec fn opt_text(o: Option<String>) -> Option<Seq<char>> {
    match o {
        Some(s) => Some(s@),
        None => None,
    }
}

/// The text of each string of a sequence.
pub open spec fn string_views(lines: Seq<String>) -> Seq<Seq<char>> {
    lines.map_values(|l: String| l@)
}

/// The method of a request.
#[derive(Debug, Clone, Copy, PartialEq, Eq, Structural)]
pub enum RequestType {
    GET,
    POST,
    PUT,
    HEAD,
    DELETE,
    PATCH,
    OPTIONS,
}

/// The scheme of a request: plain HTTP, or HTTP over TLS.
#[derive(Debug, Clone, Copy, PartialEq, Eq, Structural)]
pub enum HTTPtype {
    HTTP,
    HTTPS,
}

/// How form data is written into a body.
#[derive(Debug, Clone, Copy, PartialEq, Eq, Structural)]
pub enum DataType {
    MULTIPART,
    PLAINTEXT,
}

/// One header: a name and a value.
#[derive(Debug, Clone)]
pub struct Header {
    /// The name, as it was written.
    pub name: String,
    /// The value.
    pub value: String,
}

/// What a `Header` holds.
pub struct HeaderView {
    pub name: Seq<char>,
    pub value: Seq<char>,
}

impl View for Header {
    type V = HeaderView;

    open spec fn view(&self) -> HeaderView {
        HeaderView { name: self.name@, value: self.value@ }
    }
}

/// One cookie with its attributes.
#[derive(Debug, Clone)]
pub struct Cookie {
    /// The name of the cookie.
    pub name: String,
    /// The value of the cookie.
    pub value: String,
    /// When the cookie expires.
    pub expires: Option<String>,
    /// The path that the cookie is for.
    pub path: Option<String>,
    /// The domain that the cookie is for.
    pub domain: Option<String>,
    /// Whether scripts are kept from the cookie.
    pub http_only: bool,
    /// Whether the cookie goes with requests from other sites.
    pub same_site: Option<String>,
    /// Whether the cookie is sent over secure transport only.
    pub secure: bool,
    /// How many seconds the cookie lasts.
    pub max_age: Option<isize>,
}

/// What a `Cookie` holds.
pub struct CookieView {
    pub name: Seq<char>,
    pub value: Seq<char>,
    pub expires: Option<Seq<char>>,
    pub path: Option<Seq<char>>,
    pub domain: Option<Seq<char>>,
    pub http_only: bool,
    pub same_site: Option<Seq<char>>,
    pub secure: bool,
    pub max_age: Option<isize>,
}

impl View for Cookie {
    type V = CookieView;

    open spec fn view(&self) -> CookieView {
        CookieView {
            name: self.name@,
            value: self.value@,
            expires: opt_text(self.expires),
            path: opt_text(self.path),
            domain: opt_text(self.domain),
            http_only: self.http_only,
            same_site: opt_text(self.same_site),
            secure: self.secure,
            max_age: self.max_age,
        }
    }
}

/// A response as it was read.
#[derive(Debug, Clone)]
pub struct Response {
    /// The protocol version of the status line.
    pub protocol: String,
    /// The status.
    pub status: isize,
    /// The reason that stands with the status.
    pub status_text: String,
    /// The headers: for each name the value that was written last.
    pub headers: OrderedMap<String>,
    /// The number of headers.
    pub header_count: usize,
    /// The cookies by name.
    pub cookies: OrderedMap<Cookie>,
    /// The number of cookies.
    pub cookie_count: usize,
    /// The body as text, where the response has one.
    pub body: Option<String>,
    /// Notes on how the response came about.
    pub warnings: Vec<String>,
}

/// What a `Response` holds.
pub struct ResponseView {
    pub protocol: Seq<char>,
    pub status: isize,
    pub status_text: Seq<char>,
    pub headers: Seq<(Seq<char>, Seq<char>)>,
    pub header_count: usize,
    pub cookies: Seq<(Seq<char>, CookieView)>,
    pub cookie_count: usize,
    pub body: Option<Seq<char>>,
    pub warnings: Seq<Seq<char>>,
}

impl View for Response {
    type V = ResponseView;

    open spec fn view(&self) -> ResponseView {
        ResponseView {
            protocol: self.protocol@,
            status: self.status,
            status_text: self.status_text@,
            headers: self.headers@,
            header_count: self.header_count,
            cookies: self.cookies@,
            cookie_count: self.cookie_count,
            body: opt_text(self.body),
            warnings: string_views(self.warnings@),
        }
    }
}

impl Response {
    /// Builds the response that the lines of a head and a body hold; see
    /// `new_response`.
    pub fn new(body: String, head: Vec<String>) -> (r: Result<Response, Error>)
        ensures
            match r {
                Ok(res) => crate::utils::response_of(body@, string_views(head@)) == Ok::<
                    ResponseView,
                    Error,
                >(res@),
                Err(e) => crate::utils::response_of(body@, string_views(head@)) == Err::<
                    ResponseView,
                    Error,
                >(e),
            },
    {
        crate::utils::new_response(body, head)
    }
}

/// Form data for the body of a request: a text, or names with values.
#[derive(Debug, Clone)]
pub struct PostData {
    /// How the data is written.
    pub method: DataType,
    /// The text, where the data is a text.
    pub raw: String,
    /// The names with their values, where the data is a form.
    pub kv_store: OrderedMap<String>,
}

/// What a `PostData` holds.
pub struct PostDataView {
    pub method: DataType,
    pub raw: Seq<char>,
    pub kv_store: Seq<(Seq<char>, Seq<char>)>,
}

impl View for PostData {
    type V = PostDataView;

    open spec fn view(&self) -> PostDataView {
        PostDataView { method: self.method, raw: self.raw@, kv_store: self.kv_store@ }
    }
}

/// The names and values of a sequence of pairs.
pub open spec fn pair_views(pairs: Seq<(&str, &str)>) -> Seq<(Seq<char>, Seq<char>)> {
    pairs.map_values(|p: (&str, &str)| (p.0@, p.1@))
}

/// The entries after each pair was written, the first pair first.
pub open spec fn inserted_all(pairs: Seq<(Seq<char>, Seq<char>)>) -> Seq<(Seq<char>, Seq<char>)>
    decreases pairs.len(),
{
    if pairs.len() == 0 {
        Seq::empty()
    } else {
        inserted(inserted_all(pairs.drop_last()), pairs.last().0, pairs.last().1)
    }
}

/// Writing pairs one after the other leaves no name twice.
pub proof fn lemma_inserted_all_distinct(pairs: Seq<(Seq<char>, Seq<char>)>)
    ensures
        distinct_keys(inserted_all(pairs)),
    decreases pairs.len(),
{
    if pairs.len() > 0 {
        lemma_inserted_all_distinct(pairs.drop_last());
        lemma_inserted_distinct(inserted_all(pairs.drop_last()), pairs.last().0, pairs.last().1);
    }
}

/// The entries written as a form: each name, `=`, its value, with `&`
/// between each two entries.
pub open spec fn form_text(entries: Seq<(Seq<char>, Seq<char>)>) -> Seq<char>
    decreases entries.len(),
{
    if entries.len() == 0 {
        Seq::empty()
    } else if entries.len() == 1 {
        entries[0].0 + seq!['='] + entries[0].1
    } else {
        form_text(entries.drop_last()) + seq!['&'] + entries.last().0 + seq!['='] + entries.last().1
    }
}

/// The content type and the body that form data is sent as: a text goes
/// as it is, as `application/json`; names with values go as a form, as
/// `application/x-www-form-urlencoded`.
pub open spec fn body_of(data: PostDataView) -> (Seq<char>, Seq<char>) {
    if data.kv_store.len() == 0 {
        ("application/json"@, data.raw)
    } else {
        ("application/x-www-form-urlencoded"@, form_text(data.kv_store))
    }
}

/// The pairs that a hash map of string slices holds, as `Vec::from_iter`
/// gathers them from the map. The map hands out its entries in an order of
/// its own, so nothing is claimed of the pairs.
#[verifier::external_body]
fn pairs_of_hash_map<'a>(map: HashMap<&'a str, &'a str>) -> (pairs: Vec<(&'a str, &'a str)>) {
    Vec::from_iter(map)
}

impl PostData {
    /// The value that stands under `k`.
    pub fn get(&self, k: &str) -> (r: Option<&String>)
        ensures
            match r {
                Some(v) => lookup(self@.kv_store, k@) == Some(v@),
                None => lookup(self@.kv_store, k@) is None,
            },
    {
        self.kv_store.get(k)
    }

    /// Writes `v` under `k` and returns the number of names.
    pub fn insert(&mut self, k: &str, v: &str) -> (n: usize)
        ensures
            final(self)@ == (PostDataView {
                kv_store: inserted(old(self)@.kv_store, k@, v@),
                ..old(self)@
            }),
            n == final(self)@.kv_store.len(),
    {
        self.kv_store.insert(k.to_owned(), v.to_owned());
        self.kv_store.len()
    }

    /// Form data that is the given text.
    pub fn from_str(text: &str) -> (data: PostData)
        ensures
            data@ == (PostDataView {
                method: DataType::PLAINTEXT,
                raw: text@,
                kv_store: Seq::empty(),
            }),
    {
        PostData { method: DataType::PLAINTEXT, raw: text.to_owned(), kv_store: OrderedMap::new() }
    }

    /// Form data of the given names and values, written in their order.
    pub fn from_tuple(data: Vec<(&str, &str)>) -> (form: PostData)
        ensures
            form@ == (PostDataView {
                method: DataType::MULTIPART,
                raw: Seq::empty(),
                kv_store: inserted_all(pair_views(data@)),
            }),
            distinct_keys(form@.kv_store),
    {
        let mut kv_store: OrderedMap<String> = OrderedMap::new();
        let ghost pairs = pair_views(data@);
        let mut i: usize = 0;
        assert(pairs.take(0) == Seq::<(Seq<char>, Seq<char>)>::empty());
        while i < data.len()
            invariant
                i <= data.len(),
                pairs == pair_views(data@),
                kv_store@ == inserted_all(pairs.take(i as int)),
            decreases data.len() - i,
        {
            assert(pairs.take(i + 1).drop_last() == pairs.take(i as int));
            assert(pairs.take(i + 1).last() == (data[i as int].0@, data[i as int].1@));
            kv_store.insert(data[i].0.to_owned(), data[i].1.to_owned());
            i += 1;
        }
        assert(pairs.take(data.len() as int) == pairs);
        proof {
            lemma_inserted_all_distinct(pairs);
        }
        PostData { method: DataType::MULTIPART, raw: String::new(), kv_store }
    }

    /// Form data of the names and values of a hash map, written in the order
    /// in which the map hands them out.
    pub fn from_hash_map(map: HashMap<&str, &str>) -> (form: PostData)
        ensures
            form@.method == DataType::MULTIPART,
            form@.raw == Seq::<char>::empty(),
            distinct_keys(form@.kv_store),
            exists|pairs: Seq<(Seq<char>, Seq<char>)>| form@.kv_store == inserted_all(pairs),
    {
        let pairs = pairs_of_hash_map(map);
        let ghost views = pair_views(pairs@);
        let form = PostData::from_tuple(pairs);
        assert(form@.kv_store == inserted_all(views));
        form
    }

    /// The content type and the body that the data is sent as.
    pub fn deserialize(&self) -> (r: (String, String))
        ensures
            (r.0@, r.1@) == body_of(self@),
    {
        if self.kv_store.len() == 0 {
            ("application/json".to_owned(), self.raw.clone())
        } else {
            let mut form: Vec<char> = Vec::new();
            let mut i: usize = 0;
            assert(self@.kv_store.take(0) == Seq::<(Seq<char>, Seq<char>)>::empty());
            while i < self.kv_store.len()
                invariant
                    i <= self.kv_store@.len(),
                    form@ == form_text(self.kv_store@.take(i as int)),
                decreases self.kv_store@.len() - i,
            {
                let ghost next = self.kv_store@.take(i + 1);
                assert(next.drop_last() == self.kv_store@.take(i as int));
                assert(next.last() == self.kv_store@[i as int]);
                if i > 0 {
                    form.push('&');
                }
                append_chars(&mut form, &chars_of(self.kv_store.key_at(i).as_str()));
                form.push('=');
                append_chars(&mut form, &chars_of(self.kv_store.value_at(i).as_str()));
                assert(form@ == form_text(next)) by {
                    if i == 0 {
                        assert(next[0] == self.kv_store@[0]);
                    }
                }
                i += 1;
            }
            assert(self.kv_store@.take(self.kv_store@.len() as int) == self.kv_store@);
            ("application/x-www-form-urlencoded".to_owned(), string_of(&form))
        }
    }
}

/// A request: where it goes, what it asks and what it carries.
#[derive(Debug, Clone)]
pub struct Request {
    /// The method.
    pub request_type: RequestType,
    /// The address that the request was made from.
    pub url_string: String,
    /// The host to connect to.
    pub domain: String,
    /// The port to connect to.
    pub port: usize,
    /// The path to ask for.
    pub path: String,
    /// The scheme.
    pub protocol: HTTPtype,
    /// The content type and the body, where the request carries one.
    pub body: Option<(String, String)>,
    /// The headers, in the order in which they were set.
    pub headers: OrderedMap<String>,
    /// The number of headers.
    pub header_count: usize,
}

/// What a `Request` holds.
pub struct RequestView {
    pub request_type: RequestType,
    pub url_string: Seq<char>,
    pub domain: Seq<char>,
    pub port: usize,
    pub path: Seq<char>,
    pub protocol: HTTPtype,
    pub body: Option<(Seq<char>, Seq<char>)>,
    pub headers: Seq<(Seq<char>, Seq<char>)>,
    pub header_count: usize,
}

impl View for Request {
    type V = RequestView;

    open spec fn view(&self) -> RequestView {
        RequestView {
            request_type: self.request_type,
            url_string: self.url_string@,
            domain: self.domain@,
            port: self.port,
            path: self.path@,
            protocol: self.protocol,
            body: match self.body {
                Some(b) => Some((b.0@, b.1@)),
                None => None,
            },
            headers: self.headers@,
            header_count: self.header_count,
        }
    }
}

/// The request of the given method to the given address, without headers
/// and without a body; nothing where the address cannot be read.
pub open spec fn request_to(request_type: RequestType, url: Seq<char>) -> Option<RequestView> {
    match url_of(url) {
        Some((protocol, domain, port, path)) => Some(
            RequestView {
                request_type,
                url_string: url,
                domain,
                port,
                path,
                protocol,
                body: None,
                headers: Seq::empty(),
                header_count: 0,
            },
        ),
        None => None,
    }
}

impl Request {
    /// The request of the given method to the given address.
    fn to(request_type: RequestType, url: &str) -> (r: Result<Request, Error>)
        ensures
            match r {
                Ok(q) => request_to(request_type, url@) == Some(q@),
                Err(e) => e == Error::InvalidUrl && request_to(request_type, url@) is None,
            },
    {
        let url_string = url.to_owned();
        match parse_url(&url_string) {
            Ok((protocol, domain, port, path)) => Ok(
                Request {
                    request_type,
                    url_string,
                    domain,
                    port,
                    path,
                    protocol,
                    body: None,
                    headers: OrderedMap::new(),
                    header_count: 0,
                },
            ),
            Err(e) => Err(e),
        }
    }

    /// A `GET` request to the address; `InvalidUrl` where the address cannot
    /// be read.
    pub fn get(url: &str) -> (r: Result<Request, Error>)
        ensures
            match r {
                Ok(q) => request_to(RequestType::GET, url@) == Some(q@),
                Err(e) => e == Error::InvalidUrl && request_to(RequestType::GET, url@) is None,
            },
    {
        Request::to(RequestType::GET, url)
    }

    /// A `HEAD` request to the address; `InvalidUrl` where the address
    /// cannot be read.
    pub fn head(url: &str) -> (r: Result<Request, Error>)
        ensures
            match r {
                Ok(q) => request_to(RequestType::HEAD, url@) == Some(q@),
                Err(e) => e == Error::InvalidUrl && request_to(RequestType::HEAD, url@) is None,
            },
    {
        Request::to(RequestType::HEAD, url)
    }

    /// A `DELETE` request to the address; `InvalidUrl` where the address
    /// cannot be read.
    pub fn delete(url: &str) -> (r: Result<Request, Error>)
        ensures
            match r {
                Ok(q) => request_to(RequestType::DELETE, url@) == Some(q@),
                Err(e) => e == Error::InvalidUrl && request_to(RequestType::DELETE, url@)
                    is None,
            },
    {
        Request::to(RequestType::DELETE, url)
    }

    /// An `OPTIONS` request to the address; `InvalidUrl` where the address
    /// cannot be read.
    pub fn options(url: &str) -> (r: Result<Request, Error>)
        ensures
            match r {
                Ok(q) => request_to(RequestType::OPTIONS, url@) == Some(q@),
                Err(e) => e == Error::InvalidUrl && request_to(RequestType::OPTIONS, url@)
                    is None,
            },
    {
        Request::to(RequestType::OPTIONS, url)
    }

    /// A `POST` request to the address; `InvalidUrl` where the address
    /// cannot be read.
    pub fn post(url: &str) -> (r: Result<Request, Error>)
        ensures
            match r {
                Ok(q) => request_to(RequestType::POST, url@) == Some(q@),
                Err(e) => e == Error::InvalidUrl && request_to(RequestType::POST, url@) is None,
            },
    {
        Request::to(RequestType::POST, url)
    }

    /// Gives the request the body that the form data is sent as, with its
    /// content type, and hands the request back for the next call.
    pub fn set_body(&mut self, body: &PostData) -> (r: &mut Request)
        ensures
            r@ == (RequestView { body: Some(body_of(body@)), ..old(self)@ }),
            *final(self) == *final(r),
    {
        self.body = Some(body.deserialize());
        self
    }

    /// Sets the header `key` to `value`, and hands the request back for the
    /// next call. A header of that name that was set before leaves, and the
    /// new one stands last.
    pub fn set_header(&mut self, key: &str, value: &str) -> (r: &mut Request)
        ensures
            r@ == (RequestView {
                headers: inserted(old(self)@.headers, key@, value@),
                header_count: inserted(old(self)@.headers, key@, value@).len() as usize,
                ..old(self)@
            }),
            *final(self) == *final(r),
    {
        self.headers.insert(key.to_owned(), value.to_owned());
        self.header_count = self.headers.len();
        self
    }
}

/// The settings of a client.
#[derive(Debug, Clone, Copy, PartialEq, Eq, Structural)]
pub struct ClientConfig {
    pub no_parse: bool,
    pub force_https: bool,
    pub redirect_limit: u8,
    pub auto_upgrade: bool,
    pub max_queue_length: usize,
    pub perform_preflight: bool,
    pub connection_limit: u8,
    pub cycle_connections: bool,
}

impl Default for ClientConfig {
    /// The settings that a new client starts with.
    fn default() -> (c: ClientConfig)
        ensures
            c == (ClientConfig {
                no_parse: false,
                force_https: false,
                redirect_limit: 10,
                auto_upgrade: true,
                max_queue_length: 10,
                perform_preflight: true,
                connection_limit: 5,
                cycle_connections: false,
            }),
    {
        ClientConfig {
            no_parse: false,
            force_https: false,
            redirect_limit: 10,
            auto_upgrade: true,
            max_queue_length: 10,
            perform_preflight: true,
            connection_limit: 5,
            cycle_connections: false,
        }
    }
}


} // verus!
