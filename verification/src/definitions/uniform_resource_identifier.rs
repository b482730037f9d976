//! A whole address: scheme, domain and path.

use crate::definitions::domain::{domain_of, Domain, DomainView};
use crate::structs::HTTPtype;
use crate::types::Error;
use crate::utils::parsers::{parse_url, url_of};
use vstd::prelude::*;

verus! {

/// An address.
#[derive(Debug, Clone)]
pub struct URI {
    /// The scheme.
    pub protocol: HTTPtype,
    /// The domain with its port.
    pub domain: Domain,
    /// The path.
    pub path: String,
}

/// What a `URI` holds.
pub struct URIView {
    pub protocol: HTTPtype,
    pub domain: DomainView,
    pub path: Seq<char>,
}

impl View for URI {
    type V = URIView;

    open spec fn view(&self) -> URIView {
        URIView { protocol: self.protocol, domain: self.domain@, path: self.path@ }
    }
}

/// The address that a text writes: its scheme, the domain of its host and
/// port, and its path; nothing where the text cannot be read as an address.
pub open spec fn uri_of(text: Seq<char>) -> Option<URIView> {
    match url_of(text) {
        Some((protocol, host, port, path)) => Some(
            URIView { protocol, domain: domain_of(host, port as u32), path },
        ),
        None => None,
    }
}

impl URI {
    /// Reads an address.
    ///
    /// Returns `InvalidUrl` where the text holds no scheme of `http` or
    /// `https`, no host, or a port that is no number up to 65535.
    pub fn new(item: &str) -> (r: Result<URI, Error>)
        ensures
            match r {
                Ok(uri) => uri_of(item@) == Some(uri@),
                Err(e) => e == Error::InvalidUrl && uri_of(item@) is None,
            },
    {
        let text = item.to_owned();
        match parse_url(&text) {
            Ok((protocol, host, port, path)) => {
                proof {
                    crate::utils::parsers::lemma_url_port(item@);
                }
                let domain = Domain::parse(host.as_str(), port as u32);
                Ok(URI { protocol, domain, path })
            },
            Err(e) => Err(e),
        }
    }
}

} // verus!
