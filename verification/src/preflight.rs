//! The preflight gate: what the answer to an `OPTIONS` request allows.

use crate::map::lookup_ignore_case;
use crate::serializer::{verb_name, verb_text};
use crate::structs::{RequestType, Response};
use crate::text::{chars_of, same_chars, split, split_text, texts, trim, trim_text};
use crate::types::Error;
use crate::utils::method_reason;
use vstd::prelude::*;

verus! {

/// What a preflight decides.
#[derive(Debug, Clone, Copy, PartialEq, Eq, Structural)]
pub enum PreflightOutcome {
    /// The request may be sent.
    Allowed,
    /// The server does not list the method.
    DeniedMethod,
    /// The server does not admit every origin.
    DeniedOrigin,
}

/// The decision of a preflight, with the method that was checked.
#[derive(Debug, Clone, Copy, PartialEq, Eq, Structural)]
pub struct PreflightDecision {
    pub outcome: PreflightOutcome,
    pub verb: RequestType,
}

/// The origins that the server admits, where it says so.
pub open spec fn allow_origin(headers: Seq<(Seq<char>, Seq<char>)>) -> Option<Seq<char>> {
    lookup_ignore_case(headers, "Access-Control-Allow-Origin"@)
}

/// The methods that the server lists, where it lists any: the value of
/// `Access-Control-Allow-Methods`, or without that header the value of
/// `Allow`.
pub open spec fn allow_methods(headers: Seq<(Seq<char>, Seq<char>)>) -> Option<Seq<char>> {
    match lookup_ignore_case(headers, "Access-Control-Allow-Methods"@) {
        Some(list) => Some(list),
        None => lookup_ignore_case(headers, "Allow"@),
    }
}

/// `verb` is one of the entries of the list: the entries stand between the
/// commas of the list and count without the spaces around them.
pub open spec fn lists_verb(list: Seq<char>, verb: Seq<char>) -> bool {
    exists|i: int| 0 <= i < split(list, seq![',']).len() && trim(#[trigger] split(list, seq![','])[i]) == verb
}

/// What the headers of the answer decide for a method.
///
/// With both the origins and the methods given, the method has to be listed
/// and the origins have to be `*`; a method that is not listed is denied
/// before the origin is looked at. With the origins alone they have to be
/// `*`. With the methods alone the method has to be listed. With neither,
/// the request is allowed.
pub open spec fn outcome_of(headers: Seq<(Seq<char>, Seq<char>)>, verb: RequestType) -> PreflightOutcome {
    match (allow_origin(headers), allow_methods(headers)) {
        (Some(origin), Some(list)) => if !lists_verb(list, verb_text(verb)) {
            PreflightOutcome::DeniedMethod
        } else if origin != "*"@ {
            PreflightOutcome::DeniedOrigin
        } else {
            PreflightOutcome::Allowed
        },
        (Some(origin), None) => if origin == "*"@ {
            PreflightOutcome::Allowed
        } else {
            PreflightOutcome::DeniedOrigin
        },
        (None, Some(list)) => if lists_verb(list, verb_text(verb)) {
            PreflightOutcome::Allowed
        } else {
            PreflightOutcome::DeniedMethod
        },
        (None, None) => PreflightOutcome::Allowed,
    }
}

/// Whether `verb` is one of the entries of the list.
pub fn verb_listed(list: &str, verb: &str) -> (r: bool)
    ensures
        r == lists_verb(list@, verb@),
{
    let mut comma: Vec<char> = Vec::new();
    comma.push(',');
    assert(comma@ == seq![',']);
    let entries = split_text(&chars_of(list), &comma);
    let wanted = chars_of(verb);
    let ghost parts = split(list@, seq![',']);
    let mut i: usize = 0;
    while i < entries.len()
        invariant
            i <= entries.len(),
            parts == texts(entries@),
            parts == split(list@, seq![',']),
            wanted@ == verb@,
            forall|k: int| 0 <= k < i ==> trim(#[trigger] parts[k]) != verb@,
        decreases entries.len() - i,
    {
        assert(parts[i as int] == entries[i as int]@);
        if same_chars(&trim_text(&entries[i]), &wanted) {
            assert(trim(split(list@, seq![','])[i as int]) == verb@);
            return true;
        }
        i += 1;
    }
    false
}

/// Decides from the answer to an `OPTIONS` request whether a request of the
/// method `verb` may be sent.
pub fn preflight(response: &Response, verb: RequestType) -> (d: PreflightDecision)
    ensures
        d.outcome == outcome_of(response@.headers, verb),
        d.verb == verb,
{
    let origin = response.headers.get_ignore_case("Access-Control-Allow-Origin");
    let methods = match response.headers.get_ignore_case("Access-Control-Allow-Methods") {
        Some(list) => Some(list),
        None => response.headers.get_ignore_case("Allow"),
    };
    let star = "*".to_owned();
    let outcome = match (origin, methods) {
        (Some(o), Some(list)) => {
            if !verb_listed(list.as_str(), verb_name(verb)) {
                PreflightOutcome::DeniedMethod
            } else if *o != star {
                PreflightOutcome::DeniedOrigin
            } else {
                PreflightOutcome::Allowed
            }
        },
        (Some(o), None) => {
            if *o == star {
                PreflightOutcome::Allowed
            } else {
                PreflightOutcome::DeniedOrigin
            }
        },
        (None, Some(list)) => {
            if verb_listed(list.as_str(), verb_name(verb)) {
                PreflightOutcome::Allowed
            } else {
                PreflightOutcome::DeniedMethod
            }
        },
        (None, None) => PreflightOutcome::Allowed,
    };
    PreflightDecision { outcome, verb }
}

impl PreflightOutcome {
    /// The words that explain a denial; none for an allowed request.
    pub open spec fn reason_text(self) -> Option<Seq<char>> {
        match self {
            PreflightOutcome::Allowed => None,
            PreflightOutcome::DeniedMethod => Some(method_reason()),
            PreflightOutcome::DeniedOrigin => Some("Origin not allowed"@),
        }
    }

    /// The error that a denial ends the call with; none for an allowed
    /// request.
    pub open spec fn error_of(self) -> Option<Error> {
        match self {
            PreflightOutcome::Allowed => None,
            PreflightOutcome::DeniedMethod => Some(Error::CrossOriginResourceMethodDisallowed),
            PreflightOutcome::DeniedOrigin => Some(Error::CrossOriginResourceOriginDisallowed),
        }
    }

    /// The words that explain a denial.
    pub fn reason(&self) -> (r: Option<String>)
        ensures
            crate::structs::opt_text(r) == self.reason_text(),
    {
        match self {
            PreflightOutcome::Allowed => None,
            PreflightOutcome::DeniedMethod => Some("Method not allowed".to_owned()),
            PreflightOutcome::DeniedOrigin => Some("Origin not allowed".to_owned()),
        }
    }

    /// The error that a denial ends the call with.
    pub fn error(&self) -> (r: Option<Error>)
        ensures
            r == self.error_of(),
    {
        match self {
            PreflightOutcome::Allowed => None,
            PreflightOutcome::DeniedMethod => Some(Error::CrossOriginResourceMethodDisallowed),
            PreflightOutcome::DeniedOrigin => Some(Error::CrossOriginResourceOriginDisallowed),
        }
    }
}

/// The words of a denial name the error of the denial: reading the reason
/// of a denied preflight with `parse_err_reason` gives the error of that
/// preflight.
pub proof fn lemma_reason_names_error(outcome: PreflightOutcome)
    requires
        outcome != PreflightOutcome::Allowed,
    ensures
        outcome.reason_text() matches Some(reason) && Some(crate::utils::error_of_reason(reason))
            == outcome.error_of(),
{
    reveal_strlit("Method not allowed");
    reveal_strlit("Origin not allowed");
    assert("Origin not allowed"@[0] != "Method not allowed"@[0]);
}

} // verus!
