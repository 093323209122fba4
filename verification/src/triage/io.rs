//! Severity of operating-system I/O errors.

use vstd::prelude::*;
use std::io::ErrorKind;
use crate::triage::{Severity, Triage};

verus! {

/// The kinds of I/O error that the classification tells apart.
#[derive(Debug, Clone, Copy, PartialEq, Eq, Structural, Hash)]
pub enum IoFault {
    NotFound,
    ConnectionRefused,
    ConnectionReset,
    ConnectionAborted,
    NotConnected,
    AddrInUse,
    BrokenPipe,
    WouldBlock,
    TimedOut,
    WriteZero,
    Interrupted,
    /// Any other kind of I/O error
    Other,
}

impl IoFault {
    /// Conditions of the network layer that pass with time are transient, the
    /// rest is permanent.
    pub open spec fn severity_spec(self) -> Severity {
        if self is Other {
            Severity::Permanent
        } else {
            Severity::Transient
        }
    }

    /// The severity of an I/O error of this kind.
    pub fn severity(self) -> (s: Severity)
        ensures
            s == self.severity_spec(),
            s != Severity::Fatal,
    {
        match self {
            IoFault::NotFound
            | IoFault::ConnectionRefused
            | IoFault::ConnectionReset
            | IoFault::ConnectionAborted
            | IoFault::NotConnected
            | IoFault::AddrInUse
            | IoFault::BrokenPipe
            | IoFault::WouldBlock
            | IoFault::TimedOut
            | IoFault::WriteZero
            | IoFault::Interrupted => Severity::Transient,
            IoFault::Other => Severity::Permanent,
        }
    }
}

#[verifier::external_type_specification]
#[verifier::external_body]
pub struct ExIoError(std::io::Error);

/// The kind that `std::io::Error::kind` reports for an error, as an
/// [`IoFault`].
pub uninterp spec fn io_fault_of(e: std::io::Error) -> IoFault;

/// Calls `std::io::Error::kind` and names the kind among those the
/// classification tells apart. Trusted: the same error always reports the same
/// kind.
#[verifier::external_body]
pub(crate) fn io_fault(e: &std::io::Error) -> (k: IoFault)
    ensures
        k == io_fault_of(*e),
{
    match e.kind() {
        ErrorKind::NotFound => IoFault::NotFound,
        ErrorKind::ConnectionRefused => IoFault::ConnectionRefused,
        ErrorKind::ConnectionReset => IoFault::ConnectionReset,
        ErrorKind::ConnectionAborted => IoFault::ConnectionAborted,
        ErrorKind::NotConnected => IoFault::NotConnected,
        ErrorKind::AddrInUse => IoFault::AddrInUse,
        ErrorKind::BrokenPipe => IoFault::BrokenPipe,
        ErrorKind::WouldBlock => IoFault::WouldBlock,
        ErrorKind::TimedOut => IoFault::TimedOut,
        ErrorKind::WriteZero => IoFault::WriteZero,
        ErrorKind::Interrupted => IoFault::Interrupted,
        _ => IoFault::Other,
    }
}

impl Triage for std::io::Error {
    open spec fn severity_spec(&self) -> Severity {
        io_fault_of(*self).severity_spec()
    }

    #[inline]
    fn severity(&self) -> (s: Severity) {
        io_fault(self).severity()
    }
}

} // verus!
