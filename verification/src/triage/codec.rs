//! Severity of decoding and parsing errors: malformed input stays malformed,
//! so none of them is worth a retry.

use vstd::prelude::*;
use crate::triage::{Severity, Triage};

verus! {

#[verifier::external_type_specification]
#[verifier::external_body]
pub struct ExBase58DecodeError(bs58::decode::Error);

#[verifier::external_type_specification]
#[verifier::external_body]
pub struct ExProtobufDecodeError(prost::DecodeError);

#[verifier::external_type_specification]
#[verifier::external_body]
pub struct ExUuidError(uuid::Error);

impl Triage for bs58::decode::Error {
    open spec fn severity_spec(&self) -> Severity {
        Severity::Permanent
    }

    #[inline]
    fn severity(&self) -> (s: Severity) {
        Severity::Permanent
    }
}

impl Triage for prost::DecodeError {
    open spec fn severity_spec(&self) -> Severity {
        Severity::Permanent
    }

    #[inline]
    fn severity(&self) -> (s: Severity) {
        Severity::Permanent
    }
}

impl Triage for uuid::Error {
    open spec fn severity_spec(&self) -> Severity {
        Severity::Permanent
    }

    #[inline]
    fn severity(&self) -> (s: Severity) {
        Severity::Permanent
    }
}

} // verus!
