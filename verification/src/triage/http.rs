//! Severity of HTTP client errors.

use vstd::prelude::*;
use crate::triage::{Severity, Triage};

verus! {

#[verifier::external_type_specification]
#[verifier::external_body]
pub struct ExHttpError(reqwest::Error);

/// What the classification reads of an HTTP client error.
#[derive(Debug, Clone, Copy, PartialEq, Eq, Structural, Hash)]
pub struct HttpFault {
    /// The error was made from a response's status code
    pub is_status: bool,
    /// The status code of the response that the error was made from, if any
    pub status: Option<u16>,
    /// The error is related to a timeout
    pub is_timeout: bool,
    /// The error is related to connecting
    pub is_connect: bool,
    /// The error is related to the request or response body
    pub is_body: bool,
    /// The error is related to decoding the response's body
    pub is_decode: bool,
}

/// Whether a status code lies in the server-error class, 500 to 599.
pub open spec fn is_server_error(status: u16) -> bool {
    500 <= status <= 599
}

impl HttpFault {
    /// Whether the error stands for a response with a status outside the
    /// server-error class.
    pub open spec fn has_benign_status(self) -> bool {
        &&& self.is_status
        &&& self.status matches Some(code)
        &&& !is_server_error(code)
    }

    /// An HTTP error is transient where it stands for a connectivity, timeout,
    /// body or decode problem, or for a status that is no server error; any other
    /// is permanent.
    pub open spec fn severity_spec(self) -> Severity {
        if self.has_benign_status() || self.is_timeout || self.is_connect || self.is_body
            || self.is_decode {
            Severity::Transient
        } else {
            Severity::Permanent
        }
    }

    /// The severity of the HTTP error that this fault was read from.
    pub fn severity(&self) -> (s: Severity)
        ensures
            s == self.severity_spec(),
            s != Severity::Fatal,
    {
        let benign = self.is_status && match self.status {
            Some(code) => !(500 <= code && code <= 599),
            None => false,
        };
        if benign || self.is_timeout || self.is_connect || self.is_body || self.is_decode {
            Severity::Transient
        } else {
            Severity::Permanent
        }
    }
}

/// What the predicates `is_status`, `is_timeout`, `is_connect`, `is_body` and
/// `is_decode` of `reqwest::Error` and its `status` report of an error.
pub uninterp spec fn http_fault_of(e: reqwest::Error) -> HttpFault;

/// Reads an HTTP client error through the predicates of `reqwest::Error` and
/// through `status`, whose code is taken as a number. Trusted: reading the same
/// error twice gives the same fault.
#[verifier::external_body]
pub(crate) fn http_fault(e: &reqwest::Error) -> (f: HttpFault)
    ensures
        f == http_fault_of(*e),
{
    HttpFault {
        is_status: e.is_status(),
        status: e.status().map(|code| code.as_u16()),
        is_timeout: e.is_timeout(),
        is_connect: e.is_connect(),
        is_body: e.is_body(),
        is_decode: e.is_decode(),
    }
}

impl Triage for reqwest::Error {
    open spec fn severity_spec(&self) -> Severity {
        http_fault_of(*self).severity_spec()
    }

    #[inline]
    fn severity(&self) -> (s: Severity) {
        http_fault(self).severity()
    }
}

} // verus!
