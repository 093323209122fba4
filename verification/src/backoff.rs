//! Bounded exponential backoff sequences.
//!
//! The delays themselves come from `backon`; what the consumer's decisions rest
//! on is only how many delays a sequence will still hand out.

use vstd::prelude::*;
use backon::{BackoffBuilder, ExponentialBackoff, ExponentialBuilder};
use std::time::Duration;

verus! {

#[verifier::external_type_specification]
#[verifier::external_body]
pub struct ExExponentialBuilder(ExponentialBuilder);

#[verifier::external_type_specification]
#[verifier::external_body]
pub struct ExExponentialBackoff(ExponentialBackoff);

/// The number of delays that a sequence built from this policy hands out
/// before it is exhausted: the `max_times` that the builder holds.
pub uninterp spec fn max_times_of(policy: ExponentialBuilder) -> nat;

/// The number of delays that this sequence will still hand out: its
/// `max_times` less the attempts it has counted.
pub uninterp spec fn delays_left(backoff: ExponentialBackoff) -> nat;

/// `ExponentialBuilder::default`. Trusted: the default policy allows three
/// delays.
#[verifier::external_body]
pub(crate) fn default_policy() -> (policy: ExponentialBuilder)
    ensures
        max_times_of(policy) == 3,
{
    ExponentialBuilder::default()
}

/// `ExponentialBuilder::with_jitter`. Trusted: jitter leaves the number of
/// delays as it was.
#[verifier::external_body]
pub(crate) fn with_jitter(policy: ExponentialBuilder) -> (jittered: ExponentialBuilder)
    ensures
        max_times_of(jittered) == max_times_of(policy),
{
    policy.with_jitter()
}

/// `ExponentialBuilder::with_max_times`. Trusted: the policy then allows
/// `max_times` delays.
#[verifier::external_body]
pub(crate) fn with_max_times(policy: ExponentialBuilder, max_times: usize) -> (capped:
    ExponentialBuilder)
    ensures
        max_times_of(capped) == max_times,
{
    policy.with_max_times(max_times)
}

/// `BackoffBuilder::build` of `ExponentialBuilder`. Trusted: a fresh sequence
/// has counted no attempt, so it holds as many delays as the policy allows.
#[verifier::external_body]
pub(crate) fn build(policy: &ExponentialBuilder) -> (backoff: ExponentialBackoff)
    ensures
        delays_left(backoff) == max_times_of(*policy),
{
    policy.build()
}

/// `Iterator::next` of `ExponentialBackoff`. Trusted: a delay comes out
/// exactly while delays are left, each one that comes out is counted, and
/// the call does not panic. Nothing is said of the delay itself, which may be
/// jittered.
#[verifier::external_body]
pub(crate) fn next_delay(backoff: &mut ExponentialBackoff) -> (delay: Option<Duration>)
    ensures
        delay is Some <==> delays_left(*old(backoff)) > 0,
        delays_left(*final(backoff)) == if delays_left(*old(backoff)) > 0 {
            (delays_left(*old(backoff)) - 1) as nat
        } else {
            0
        },
    no_unwind
{
    backoff.next()
}

} // verus!
