//! The retry decisions of one handler task.
//!
//! Each record that decodes is handed to a task of its own, which invokes the
//! caller's handler and, where the handler fails, decides from the error's
//! severity whether to invoke it again.

use vstd::prelude::*;
use backon::{ExponentialBackoff, ExponentialBuilder};
use std::time::Duration;
use crate::backoff::{build, delays_left, max_times_of, next_delay};
use crate::triage::{Severity, Triage};

verus! {

/// What a handler task does once the handler has returned.
#[derive(Debug, Clone, Copy, PartialEq, Eq, Structural, Hash)]
pub enum Verdict {
    /// The handler succeeded: the task ends
    Finish,
    /// The handler failed for now: wait, then invoke it again on a clone of
    /// the event
    Retry,
    /// The handler failed for good: the task ends without another attempt
    Drop,
    /// The handler failed for now but no retry is left: the task ends
    /// without further reporting
    GiveUp,
    /// The handler failed fatally: the process is brought down
    Abort,
}

/// What a handler task does once the handler has returned, with the delay to
/// wait before a retry.
#[derive(Debug, Clone, Copy, PartialEq, Eq)]
pub enum HandlerAction {
    /// The handler succeeded: the task ends
    Finish,
    /// Wait for the delay, then invoke the handler again on a clone of the
    /// event
    Retry(Duration),
    /// The handler failed for good: the task ends without another attempt
    Drop,
    /// No retry is left: the task ends without further reporting
    GiveUp,
    /// Log, wait for the grace delay, then abort the process
    Abort,
}

impl HandlerAction {
    /// The action without its delay.
    pub open spec fn verdict(self) -> Verdict {
        match self {
            HandlerAction::Finish => Verdict::Finish,
            HandlerAction::Retry(_) => Verdict::Retry,
            HandlerAction::Drop => Verdict::Drop,
            HandlerAction::GiveUp => Verdict::GiveUp,
            HandlerAction::Abort => Verdict::Abort,
        }
    }
}

/// The verdict on a handler's outcome, `None` standing for success and
/// `Some` for the severity of its error, with `left` retries left.
pub open spec fn verdict_on(left: nat, outcome: Option<Severity>) -> Verdict {
    match outcome {
        None => Verdict::Finish,
        Some(Severity::Transient) => if left > 0 {
            Verdict::Retry
        } else {
            Verdict::GiveUp
        },
        Some(Severity::Permanent) => Verdict::Drop,
        Some(Severity::Fatal) => Verdict::Abort,
    }
}

/// The retries left once the verdict on `outcome` is carried out: a
/// transient failure uses one up, any other outcome none.
pub open spec fn retries_after(left: nat, outcome: Option<Severity>) -> nat {
    if outcome == Some(Severity::Transient) && left > 0 {
        (left - 1) as nat
    } else {
        left
    }
}

/// The severity of a handler's error, `None` where the handler succeeded.
pub open spec fn outcome_of<E: Triage>(result: Result<(), E>) -> Option<Severity> {
    match result {
        Ok(()) => None,
        Err(e) => Some(e.severity_spec()),
    }
}

/// How a handler task went.
pub struct Run {
    /// How often the handler was invoked
    pub invocations: nat,
    /// How the task ended; `None` while it is still waiting to retry
    pub end: Option<Verdict>,
}

/// The course of a handler task that starts with `left` retries and whose
/// handler returns `outcomes`, one per invocation, for as long as it is
/// invoked.
pub open spec fn run(left: nat, outcomes: Seq<Option<Severity>>) -> Run
    decreases outcomes.len(),
{
    if outcomes.len() == 0 {
        Run { invocations: 0, end: None }
    } else {
        let verdict = verdict_on(left, outcomes[0]);
        if verdict is Retry {
            let rest = run(retries_after(left, outcomes[0]), outcomes.drop_first());
            Run { invocations: rest.invocations + 1, end: rest.end }
        } else {
            Run { invocations: 1, end: Some(verdict) }
        }
    }
}

/// The retry state of one handler task.
#[derive(Debug)]
pub struct HandlerTask {
    backoff: ExponentialBackoff,
}

impl HandlerTask {
    /// How many retries the handler still has.
    pub closed spec fn retries_left(&self) -> nat {
        delays_left(self.backoff)
    }

    /// The retry state of a task that has not invoked its handler yet: it has
    /// as many retries as the policy allows.
    pub fn new(policy: &ExponentialBuilder) -> (task: HandlerTask)
        ensures
            task.retries_left() == max_times_of(*policy),
    {
        HandlerTask { backoff: build(policy) }
    }

    /// Decide what the task does now that its handler has returned `result`.
    ///
    /// Success ends the task. A transient error is retried after the next
    /// delay of the backoff sequence, for as long as the sequence lasts; a
    /// permanent error is not retried; a fatal error brings the process down.
    pub fn on_result<E: Triage>(&mut self, result: &Result<(), E>) -> (action: HandlerAction)
        ensures
            action.verdict() == verdict_on(old(self).retries_left(), outcome_of(*result)),
            final(self).retries_left() == retries_after(
                old(self).retries_left(),
                outcome_of(*result),
            ),
    {
        match result {
            Ok(()) => HandlerAction::Finish,
            Err(e) => match e.severity() {
                Severity::Transient => match next_delay(&mut self.backoff) {
                    Some(delay) => HandlerAction::Retry(delay),
                    None => HandlerAction::GiveUp,
                },
                Severity::Permanent => HandlerAction::Drop,
                Severity::Fatal => HandlerAction::Abort,
            },
        }
    }
}

/// A handler that fails permanently is invoked exactly once, whatever
/// retries are left and whatever it would have returned afterwards.
pub proof fn lemma_permanent_is_not_retried(left: nat, outcomes: Seq<Option<Severity>>)
    requires
        outcomes.len() > 0,
        outcomes[0] == Some(Severity::Permanent),
    ensures
        run(left, outcomes).invocations == 1,
        run(left, outcomes).end == Some(Verdict::Drop),
{
}

/// A handler that fails fatally is invoked exactly once and the task ends
/// in an abort: nothing is invoked after it.
pub proof fn lemma_fatal_aborts_at_once(left: nat, outcomes: Seq<Option<Severity>>)
    requires
        outcomes.len() > 0,
        outcomes[0] == Some(Severity::Fatal),
    ensures
        run(left, outcomes).invocations == 1,
        run(left, outcomes).end == Some(Verdict::Abort),
{
}

/// A handler that fails transiently is invoked again at least once, provided
/// the policy allows a retry at all.
pub proof fn lemma_transient_is_retried(left: nat, outcomes: Seq<Option<Severity>>)
    requires
        left >= 1,
        outcomes.len() >= 2,
        outcomes[0] == Some(Severity::Transient),
    ensures
        run(left, outcomes).invocations >= 2,
{
    let rest = outcomes.drop_first();
    assert(rest.len() >= 1);
    assert(run((left - 1) as nat, rest).invocations >= 1);
}

/// A handler that keeps failing transiently is invoked once and then once
/// more for each retry that the policy allows, after which the task gives up.
pub proof fn lemma_transient_until_exhausted(left: nat, outcomes: Seq<Option<Severity>>)
    requires
        outcomes.len() > left,
        forall|i: int| 0 <= i < outcomes.len() ==> outcomes[i] == Some(Severity::Transient),
    ensures
        run(left, outcomes).invocations == left + 1,
        run(left, outcomes).end == Some(Verdict::GiveUp),
    decreases left,
{
    if left > 0 {
        lemma_transient_until_exhausted((left - 1) as nat, outcomes.drop_first());
    }
}

/// A handler that fails transiently `failures` times and then succeeds is
/// invoked `failures + 1` times and the task finishes, provided the policy
/// allows that many retries.
pub proof fn lemma_success_after_transient_failures(
    left: nat,
    failures: nat,
    outcomes: Seq<Option<Severity>>,
)
    requires
        failures <= left,
        outcomes.len() > failures,
        forall|i: int| 0 <= i < failures ==> outcomes[i] == Some(Severity::Transient),
        outcomes[failures as int] == None::<Severity>,
    ensures
        run(left, outcomes).invocations == failures + 1,
        run(left, outcomes).end == Some(Verdict::Finish),
    decreases failures,
{
    if failures > 0 {
        let rest = outcomes.drop_first();
        assert(rest[(failures - 1) as int] == outcomes[failures as int]);
        lemma_success_after_transient_failures((left - 1) as nat, (failures - 1) as nat, rest);
    }
}

} // verus!
