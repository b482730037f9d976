//! The two ways in which a preflight denies a request.

use vstd::prelude::*;

verus! {

/// A denial by the preflight.
#[derive(Debug, Clone, Copy, PartialEq, Eq, Structural)]
pub enum Error {
    /// The server does not list the method.
    CrossOriginResourceMethodDisallowed,
    /// The server does not admit every origin.
    CrossOriginResourceOriginDisallowed,
}

impl Error {
    /// The short text of the denial.
    pub open spec fn display_text(self) -> Seq<char> {
        "CrossOriginResourceError"@
    }

    /// The short text of the denial.
    pub fn to_string(&self) -> (s: String)
        ensures
            s@ == self.display_text(),
    {
        "CrossOriginResourceError".to_owned()
    }

    /// The sentence that explains the denial.
    pub open spec fn description_text(self) -> Seq<char> {
        match self {
            Error::CrossOriginResourceMethodDisallowed =>
                "The method selected for this request is disallowed by the server"@,
            Error::CrossOriginResourceOriginDisallowed =>
                "The current origin of the connection is not allowed to request the resource"@,
        }
    }

    /// The sentence that explains the denial.
    pub fn description(&self) -> (s: &'static str)
        ensures
            s@ == self.description_text(),
    {
        match self {
            Error::CrossOriginResourceMethodDisallowed =>
                "The method selected for this request is disallowed by the server",
            Error::CrossOriginResourceOriginDisallowed =>
                "The current origin of the connection is not allowed to request the resource",
        }
    }

    /// The same denial in the taxonomy of all failures.
    pub open spec fn general(self) -> crate::types::Error {
        match self {
            Error::CrossOriginResourceMethodDisallowed =>
                crate::types::Error::CrossOriginResourceMethodDisallowed,
            Error::CrossOriginResourceOriginDisallowed =>
                crate::types::Error::CrossOriginResourceOriginDisallowed,
        }
    }

    /// The same denial in the taxonomy of all failures.
    pub fn into_general(self) -> (e: crate::types::Error)
        ensures
            e == self.general(),
    {
        match self {
            Error::CrossOriginResourceMethodDisallowed =>
                crate::types::Error::CrossOriginResourceMethodDisallowed,
            Error::CrossOriginResourceOriginDisallowed =>
                crate::types::Error::CrossOriginResourceOriginDisallowed,
        }
    }
}

} // verus!
