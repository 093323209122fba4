//! Severity of broker errors.

use vstd::prelude::*;
use rdkafka::error::{KafkaError, RDKafkaErrorCode};
use crate::triage::{Severity, Triage};

verus! {

#[verifier::external_type_specification]
#[verifier::external_body]
pub struct ExKafkaError(KafkaError);

#[verifier::external_type_specification]
#[verifier::external_body]
pub struct ExKafkaErrorCode(RDKafkaErrorCode);

/// A protocol error code reported by the broker is worth a retry, whatever
/// the code.
impl Triage for RDKafkaErrorCode {
    open spec fn severity_spec(&self) -> Severity {
        Severity::Transient
    }

    #[inline]
    fn severity(&self) -> (s: Severity) {
        Severity::Transient
    }
}

/// The shapes of broker error that the classification tells apart when no
/// protocol error code is attached.
#[derive(Debug, Clone, Copy, PartialEq, Eq, Structural, Hash)]
pub enum KafkaShape {
    /// No message was available
    NoMessageReceived,
    /// The end of a partition was reached
    PartitionEof,
    /// A transaction failed; `retriable` tells whether the broker client
    /// marks the operation as one that can be retried
    Transaction { retriable: bool },
    /// A string handed to the client held an embedded NUL
    Nul,
    /// Any other broker error
    Other,
}

/// What the classification reads of a broker error.
#[derive(Debug, Clone, Copy)]
pub struct KafkaFault {
    /// The protocol error code underlying the error, if any
    pub code: Option<RDKafkaErrorCode>,
    /// The shape of the error itself
    pub shape: KafkaShape,
}

impl KafkaShape {
    /// The severity of a broker error of this shape that carries no code.
    pub open spec fn severity_spec(self) -> Severity {
        match self {
            KafkaShape::NoMessageReceived | KafkaShape::PartitionEof => Severity::Transient,
            KafkaShape::Transaction { retriable } => if retriable {
                Severity::Transient
            } else {
                Severity::Permanent
            },
            KafkaShape::Nul => Severity::Fatal,
            KafkaShape::Other => Severity::Permanent,
        }
    }

    /// The severity of a broker error of this shape that carries no code.
    pub fn severity(self) -> (s: Severity)
        ensures
            s == self.severity_spec(),
    {
        match self {
            KafkaShape::NoMessageReceived | KafkaShape::PartitionEof => Severity::Transient,
            KafkaShape::Transaction { retriable: true } => Severity::Transient,
            KafkaShape::Nul => Severity::Fatal,
            _ => Severity::Permanent,
        }
    }
}

impl KafkaFault {
    /// A broker error is classified from its protocol error code where it has
    /// one, and from its shape where it has none.
    pub open spec fn severity_spec(self) -> Severity {
        match self.code {
            Some(code) => code.severity_spec(),
            None => self.shape.severity_spec(),
        }
    }

    /// The severity of the broker error that this fault was read from.
    pub fn severity(&self) -> (s: Severity)
        ensures
            s == self.severity_spec(),
    {
        if let Some(code) = self.code {
            return code.severity();
        }
        self.shape.severity()
    }
}

/// What `KafkaError::rdkafka_error_code`, the variant of the error and, for a
/// transaction error, `RDKafkaError::is_retriable` report of a broker error.
pub uninterp spec fn kafka_fault_of(e: KafkaError) -> KafkaFault;

/// Reads a broker error: its protocol error code by
/// `KafkaError::rdkafka_error_code`, its shape by its variant, and for a
/// transaction error `RDKafkaError::is_retriable`. Trusted: reading the same
/// error twice gives the same fault.
#[verifier::external_body]
pub(crate) fn kafka_fault(e: &KafkaError) -> (f: KafkaFault)
    ensures
        f == kafka_fault_of(*e),
{
    let shape = match e {
        KafkaError::NoMessageReceived => KafkaShape::NoMessageReceived,
        KafkaError::PartitionEOF(_) => KafkaShape::PartitionEof,
        KafkaError::Transaction(t) => KafkaShape::Transaction { retriable: t.is_retriable() },
        KafkaError::Nul(_) => KafkaShape::Nul,
        _ => KafkaShape::Other,
    };
    KafkaFault { code: e.rdkafka_error_code(), shape }
}

/// The `Display` form of a broker error. Nothing is promised of it.
#[verifier::external_body]
pub(crate) fn describe(e: &KafkaError) -> (text: String) {
    format!("{e}")
}

impl Triage for KafkaError {
    open spec fn severity_spec(&self) -> Severity {
        kafka_fault_of(*self).severity_spec()
    }

    #[inline]
    fn severity(&self) -> (s: Severity) {
        kafka_fault(self).severity()
    }
}

} // verus!
