//! The domain of an address: subdomain, host label, top-level label, port.

use crate::structs::opt_text;
use crate::text::{chars_of, join, join_text, split, split_text, string_of, texts};
use crate::types::Error;
use vstd::prelude::*;

verus! {

/// The domain of an address.
#[derive(Debug, Clone)]
pub struct Domain {
    /// What stands before the host label, where anything does.
    pub sub: Option<String>,
    /// The last label.
    pub tld: String,
    /// The label before the last.
    pub host: String,
    /// The port.
    pub port: u32,
}

/// What a `Domain` holds.
pub struct DomainView {
    pub sub: Option<Seq<char>>,
    pub tld: Seq<char>,
    pub host: Seq<char>,
    pub port: u32,
}

impl View for Domain {
    type V = DomainView;

    open spec fn view(&self) -> DomainView {
        DomainView { sub: opt_text(self.sub), tld: self.tld@, host: self.host@, port: self.port }
    }
}

/// The text of an optional string slice.
pub open spec fn opt_str(o: Option<&str>) -> Option<Seq<char>> {
    match o {
        Some(s) => Some(s@),
        None => None,
    }
}

/// The domain that a host name and a port stand for.
///
/// The labels of the name are what stands between its dots. The last label
/// is the top-level label, the one before it the host label, and the labels
/// before that, with their dots, the subdomain. A name of one label is a
/// host label without a top-level label.
pub open spec fn domain_of(name: Seq<char>, port: u32) -> DomainView {
    let labels = split(name, seq!['.']);
    let n = labels.len() as int;
    if n >= 3 {
        DomainView {
            sub: Some(join(labels.subrange(0, n - 2), seq!['.'])),
            tld: labels[n - 1],
            host: labels[n - 2],
            port,
        }
    } else if n == 2 {
        DomainView { sub: None, tld: labels[1], host: labels[0], port }
    } else {
        DomainView { sub: None, tld: Seq::empty(), host: labels[0], port }
    }
}

impl Domain {
    /// The domain of the given parts.
    pub fn new(sub: Option<&str>, host: &str, tld: &str, port: u32) -> (r: Result<Domain, Error>)
        ensures
            r matches Ok(d) && d@ == (DomainView {
                sub: opt_str(sub),
                tld: tld@,
                host: host@,
                port,
            }),
    {
        let sub = match sub {
            Some(s) => Some(s.to_owned()),
            None => None,
        };
        Ok(Domain { sub, tld: tld.to_owned(), host: host.to_owned(), port })
    }

    /// The domain that a host name and a port stand for.
    pub fn parse(name: &str, port: u32) -> (d: Domain)
        ensures
            d@ == domain_of(name@, port),
    {
        let all = chars_of(name);
        let mut dot: Vec<char> = Vec::new();
        dot.push('.');
        assert(dot@ == seq!['.']);
        let labels = split_text(&all, &dot);
        let n = labels.len();
        assert(forall|i: int| 0 <= i < n ==> texts(labels@)[i] == labels[i]@);
        if n >= 3 {
            let sub = join_text(&labels, 0, n - 2, &dot);
            Domain {
                sub: Some(string_of(&sub)),
                tld: string_of(&labels[n - 1]),
                host: string_of(&labels[n - 2]),
                port,
            }
        } else if n == 2 {
            Domain { sub: None, tld: string_of(&labels[1]), host: string_of(&labels[0]), port }
        } else {
            Domain { sub: None, tld: String::new(), host: string_of(&labels[0]), port }
        }
    }
}

} // verus!
