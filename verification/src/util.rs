//! Miscellaneous core utilities

use vstd::prelude::*;

pub mod evm_addr;
pub mod text;
pub mod validate_addr;

pub use evm_addr::{downcase_evm_addresses, IntoNormalizedAddress, NormalizeAddress};
pub use validate_addr::ValidateAddress;

verus! {

/// A zero-cost wrapper that marks a value as one that is not to be shown, such
/// as a secret or a handle without a printable form; callers that print it
/// show the name of its type instead
#[derive(Clone, Copy)]
pub struct DebugShim<T>(pub T);

impl<T> From<T> for DebugShim<T> {
    fn from(val: T) -> (shim: Self) {
        DebugShim(val)
    }
}

impl<T> vstd::std_specs::convert::FromSpecImpl<T> for DebugShim<T> {
    open spec fn obeys_from_spec() -> bool {
        true
    }

    open spec fn from_spec(val: T) -> Self {
        DebugShim(val)
    }
}

} // verus!
