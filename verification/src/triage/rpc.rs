//! Severity of JSON-RPC client errors.

use vstd::prelude::*;
use jsonrpsee_core::Error;
use crate::triage::{Severity, Triage};

verus! {

#[verifier::external_type_specification]
#[verifier::external_body]
pub struct ExRpcError(Error);

/// The kinds of JSON-RPC error that the classification tells apart: those
/// that a later attempt may not meet again, each by its name, and the rest.
#[derive(Debug, Clone, Copy, PartialEq, Eq, Structural, Hash)]
pub enum RpcFault {
    Call,
    Transport,
    InvalidResponse,
    RestartNeeded,
    ParseError,
    InvalidSubscriptionId,
    InvalidRequestId,
    UnregisteredNotification,
    DuplicateRequestId,
    RequestTimeout,
    MaxSlotsExceeded,
    /// Any other error: a fault in how methods are registered, how the
    /// server is set up or what the caller asked for
    Other,
}

impl RpcFault {
    /// A failed call, a failing transport, a response that does not fit and
    /// an exhausted client may all pass; a fault in the set-up will not.
    pub open spec fn severity_spec(self) -> Severity {
        if self is Other {
            Severity::Permanent
        } else {
            Severity::Transient
        }
    }

    /// The severity of a JSON-RPC error of this kind.
    pub fn severity(self) -> (s: Severity)
        ensures
            s == self.severity_spec(),
            s != Severity::Fatal,
    {
        match self {
            RpcFault::Call
            | RpcFault::Transport
            | RpcFault::InvalidResponse
            | RpcFault::RestartNeeded
            | RpcFault::ParseError
            | RpcFault::InvalidSubscriptionId
            | RpcFault::InvalidRequestId
            | RpcFault::UnregisteredNotification
            | RpcFault::DuplicateRequestId
            | RpcFault::RequestTimeout
            | RpcFault::MaxSlotsExceeded => Severity::Transient,
            RpcFault::Other => Severity::Permanent,
        }
    }
}

/// The variant of a JSON-RPC error, as an [`RpcFault`].
pub uninterp spec fn rpc_fault_of(e: Error) -> RpcFault;

/// Names the variant of a `jsonrpsee_core::Error` among those the
/// classification tells apart. Trusted: the same error always has the same
/// variant.
#[verifier::external_body]
pub(crate) fn rpc_fault(e: &Error) -> (k: RpcFault)
    ensures
        k == rpc_fault_of(*e),
{
    match e {
        Error::Call(_) => RpcFault::Call,
        Error::Transport(_) => RpcFault::Transport,
        Error::InvalidResponse(_) => RpcFault::InvalidResponse,
        Error::RestartNeeded(_) => RpcFault::RestartNeeded,
        Error::ParseError(_) => RpcFault::ParseError,
        Error::InvalidSubscriptionId => RpcFault::InvalidSubscriptionId,
        Error::InvalidRequestId => RpcFault::InvalidRequestId,
        Error::UnregisteredNotification(_) => RpcFault::UnregisteredNotification,
        Error::DuplicateRequestId => RpcFault::DuplicateRequestId,
        Error::RequestTimeout => RpcFault::RequestTimeout,
        Error::MaxSlotsExceeded => RpcFault::MaxSlotsExceeded,
        _ => RpcFault::Other,
    }
}

impl Triage for Error {
    open spec fn severity_spec(&self) -> Severity {
        rpc_fault_of(*self).severity_spec()
    }

    #[inline]
    fn severity(&self) -> (s: Severity) {
        rpc_fault(self).severity()
    }
}

} // verus!
