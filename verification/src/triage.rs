//! Error severity classification.
//!
//! Every error that crosses the producer or the consumer is sorted into one of
//! three severities, and the severity alone decides whether the failed work is
//! retried, dropped, or brings the process down.

use vstd::prelude::*;

pub mod codec;
pub mod db;
pub mod http;
pub mod io;
pub mod kafka;
pub mod rpc;
pub mod solana;

verus! {

/// Information about the severity of an error
#[derive(Debug, Clone, Copy, PartialEq, Eq, Structural, PartialOrd, Ord, Hash)]
#[non_exhaustive]
pub enum Severity {
    /// The error is recoverable and a retry should be attempted
    Transient,
    /// The error is unrecoverable, the current operation should not be retried
    Permanent,
    /// The error is unrecoverable and the service should terminate immediately
    Fatal,
}

/// An error containing information about its severity
pub trait Triage {
    /// The severity level of this error, as a function of the error alone.
    /// Each type of error says here what its severity is.
    open spec fn severity_spec(&self) -> Severity {
        arbitrary()
    }

    /// Get the severity level of this error
    fn severity(&self) -> (s: Severity)
        ensures
            s == self.severity_spec(),
    ;
}

/// Type alias for a boxed [`dyn Triage`](Triage)
pub type Boxed<'a> = Box<dyn Triage + 'a>;

/// A boxed error of any type has the severity of the error inside the box.
impl<'a> Triage for Box<dyn Triage + 'a> {
    open spec fn severity_spec(&self) -> Severity {
        (**self).severity_spec()
    }

    #[inline]
    fn severity(&self) -> (s: Severity) {
        (**self).severity()
    }
}

/// A boxed error has the severity of the error inside the box.
impl<T: Triage> Triage for Box<T> {
    open spec fn severity_spec(&self) -> Severity {
        (**self).severity_spec()
    }

    #[inline]
    fn severity(&self) -> (s: Severity) {
        (**self).severity()
    }
}

} // verus!
