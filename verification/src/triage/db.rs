//! Severity of database errors.

use vstd::prelude::*;
use crate::triage::{Severity, Triage};

verus! {

#[verifier::external_type_specification]
#[verifier::external_body]
pub struct ExDbErr(sea_orm::error::DbErr);

/// Whatever went wrong with the database, the operation is worth another
/// attempt.
impl Triage for sea_orm::error::DbErr {
    open spec fn severity_spec(&self) -> Severity {
        Severity::Transient
    }

    #[inline]
    fn severity(&self) -> (s: Severity) {
        Severity::Transient
    }
}

} // verus!
