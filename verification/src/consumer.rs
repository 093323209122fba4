//! A Kafka record consumer
//!
//! The consumer's long-running loop waits on the broker and on the handler
//! tasks it has spawned. What it does about each thing that happens is decided
//! here, by [`Consumer::consume`]: the caller performs the action it returns
//! and reports back what happened next.

use vstd::prelude::*;
use backon::{ExponentialBackoff, ExponentialBuilder};
use rdkafka::error::KafkaError;
use rdkafka::ClientConfig;
use std::marker::PhantomData;
use std::time::Duration;
use crate::client::{clone_config, entries, log_level, set_param};
use crate::backoff::{
    build,
    default_policy,
    delays_left,
    max_times_of,
    next_delay,
    with_jitter,
    with_max_times,
};

pub mod handler;
pub mod message;

pub use handler::{HandlerAction, HandlerTask};
pub use message::{MessageGroup, Record, RecvError};
use message::{decode_spec, part_view, receive};

verus! {

/// How many delays in a row the loop sits out on failures of the record
/// stream before it gives the process up.
pub const STREAM_MAX_RETRIES: usize = 5;

/// How long the process waits between logging a fatal condition and
/// aborting, so that the log can be flushed.
pub const ABORT_GRACE_SECS: u64 = 5;

/// Service startup configuration for consuming Kafka records
#[derive(Debug)]
pub struct Config {
    pub(crate) service_name: String,
    pub(crate) config: ClientConfig,
}

/// The consumer group that the members of a message group join on behalf of
/// a service: the name of the group's type, an `@`, and the service's name.
pub open spec fn group_id_spec(group: Seq<char>, service_name: Seq<char>) -> Seq<char> {
    group + seq!['@'] + service_name
}

/// The consumer group that the members of a message group join on behalf of
/// a service.
pub fn group_id(group: &str, service_name: &str) -> (id: String)
    ensures
        id@ == group_id_spec(group@, service_name@),
{
    proof {
        reveal_strlit("@");
        assert("@"@ =~= seq!['@']);
    }
    let mut id = group.to_owned();
    id.append("@");
    id.append(service_name);
    id
}

impl Config {
    /// The name of the service that consumes.
    pub closed spec fn service_name_spec(&self) -> Seq<char> {
        self.service_name@
    }

    /// The configuration that the consumer's client is created from, before
    /// the consumer group is set in it.
    pub closed spec fn client_spec(&self) -> ClientConfig {
        self.config
    }

    /// The configuration of a consumer on behalf of the service
    /// `service_name`, whose client is created from `config`.
    pub fn new(service_name: String, config: ClientConfig) -> (cfg: Config)
        ensures
            cfg.service_name_spec() == service_name@,
            cfg.client_spec() == config,
    {
        Config { service_name, config }
    }

    /// The configuration of the client of a consumer whose message group's
    /// type is named `group`: this configuration with `group.id` set to the
    /// consumer group of `group` and the service.
    pub fn group_config(&self, group: &str) -> (config: ClientConfig)
        ensures
            entries(config) == entries(self.client_spec()).insert(
                "group.id"@,
                group_id_spec(group@, self.service_name_spec()),
            ),
            log_level(config) == log_level(self.client_spec()),
    {
        let mut config = clone_config(&self.config);
        let id = group_id(group, self.service_name.as_str());
        set_param(&mut config, "group.id", id.as_str());
        config
    }

    /// Construct the supervision of a record consumer from this config
    /// instance: a consumer that has not connected yet, whose handler tasks
    /// retry by `handler_policy`.
    pub fn build<G: MessageGroup>(self, handler_policy: ExponentialBuilder) -> (consumer: Consumer<
        G,
    >)
        ensures
            consumer@ == initial_state(),
            consumer.handler_retries() == max_times_of(handler_policy),
    {
        Consumer::new(handler_policy)
    }
}

/// Where one run of the consume loop stands.
#[derive(Debug, Clone, Copy, PartialEq, Eq, Structural, Hash)]
pub enum Phase {
    /// A fresh record stream is to be opened
    Connecting,
    /// The stream is open; records and finished handler tasks are awaited
    Receiving,
    /// The stream has ended; a delay is sat out before reconnecting
    Backoff,
    /// The process is being brought down; nothing is handled any more
    Aborted,
}

/// Why the process is brought down.
#[derive(Debug, Clone, Copy, PartialEq, Eq, Structural, Hash)]
pub enum AbortCause {
    /// A handler task failed in itself
    FatalError,
    /// The record stream failed too many times in a row
    TooManyErrors,
}

/// How a handler task came to its end, as seen by the loop that spawned it.
#[derive(Debug, Clone, Copy, PartialEq, Eq, Structural, Hash)]
pub enum TaskEnd {
    /// The task ran to its end, whatever became of the event
    Completed,
    /// The task itself failed: it panicked or was cancelled
    Failed,
}

/// Something that happened while the loop was waiting.
#[derive(Debug)]
pub enum Event {
    /// A fresh record stream has been opened
    Connected,
    /// The record stream yielded a record or a transport error, or, with
    /// `None`, came to its end
    Polled(Option<Result<Record, KafkaError>>),
    /// A handler task spawned earlier has come to its end
    Task(TaskEnd),
    /// The delay before reconnecting has been sat out
    Resumed,
}

/// What the loop is to do next.
#[derive(Debug)]
pub enum Action<G> {
    /// Open a fresh record stream, then report `Connected`
    Connect,
    /// Wait for the next record or the next finished handler task
    Receive,
    /// Spawn a handler task for the event with this retry state, then go on
    /// receiving
    Spawn { event: G, task: HandlerTask },
    /// Sit out the delay, then go on receiving
    Pause(Duration),
    /// Drop the stream, sit out the delay, then report `Resumed`
    Sleep(Duration),
    /// Log, wait for the grace delay, then abort the process
    Abort(AbortCause),
}

/// An event as far as the loop's decisions depend on it.
#[derive(Debug, Clone, Copy, PartialEq, Eq, Structural, Hash)]
pub enum EventKind {
    /// A fresh record stream has been opened
    Connected,
    /// A record arrived and decoded
    Decoded,
    /// Receiving failed, or a record arrived that did not decode
    Undecoded,
    /// The record stream came to its end
    HungUp,
    /// A handler task ran to its end
    TaskCompleted,
    /// A handler task failed in itself
    TaskFailed,
    /// The delay before reconnecting has been sat out
    Resumed,
}

/// An action without what it carries.
#[derive(Debug, Clone, Copy, PartialEq, Eq, Structural, Hash)]
pub enum ActionKind {
    Connect,
    Receive,
    Spawn,
    Pause,
    Sleep,
    Abort(AbortCause),
}

/// The state of the loop as far as its decisions depend on it.
pub struct LoopState {
    /// Where the loop stands
    pub phase: Phase,
    /// How many more delays the loop sits out on stream failures before it
    /// aborts
    pub delays_left: nat,
}

/// Whether `record` decodes to a member of the message group `G`.
pub open spec fn decodes<G: MessageGroup>(record: Record) -> bool {
    &&& G::requested_topics_spec().contains(record.topic@)
    &&& G::decoded(record.topic@, part_view(record.key), part_view(record.payload)) is Ok
}

/// What an event amounts to for a consumer of the message group `G`.
pub open spec fn event_kind<G: MessageGroup>(event: Event) -> EventKind {
    match event {
        Event::Connected => EventKind::Connected,
        Event::Polled(Some(Ok(record))) => if decodes::<G>(record) {
            EventKind::Decoded
        } else {
            EventKind::Undecoded
        },
        Event::Polled(Some(Err(_))) => EventKind::Undecoded,
        Event::Polled(None) => EventKind::HungUp,
        Event::Task(TaskEnd::Completed) => EventKind::TaskCompleted,
        Event::Task(TaskEnd::Failed) => EventKind::TaskFailed,
        Event::Resumed => EventKind::Resumed,
    }
}

/// Whether an event can happen in a phase: a stream is opened only while
/// connecting, the delay before reconnecting ends only in backoff, and
/// records and handler tasks are waited on only while receiving.
pub open spec fn accepts(phase: Phase, event: EventKind) -> bool {
    match event {
        EventKind::Connected => phase is Connecting,
        EventKind::Resumed => phase is Backoff,
        _ => phase is Receiving,
    }
}

/// The loop's decision: the state after `event` and the action to perform.
///
/// A record that decodes resets the count of delays and is handed to a task
/// of its own. A stream failure uses up one delay, or aborts the process
/// where none is left; the end of the stream does the same and then
/// reconnects. A handler task that ran to its end changes nothing, one that
/// failed in itself aborts the process.
pub open spec fn step(state: LoopState, event: EventKind) -> (LoopState, ActionKind) {
    match event {
        EventKind::Connected => (
            LoopState { phase: Phase::Receiving, delays_left: state.delays_left },
            ActionKind::Receive,
        ),
        EventKind::Decoded => (
            LoopState { phase: Phase::Receiving, delays_left: STREAM_MAX_RETRIES as nat },
            ActionKind::Spawn,
        ),
        EventKind::Undecoded => if state.delays_left > 0 {
            (
                LoopState { phase: Phase::Receiving, delays_left: (state.delays_left - 1) as nat },
                ActionKind::Pause,
            )
        } else {
            (
                LoopState { phase: Phase::Aborted, delays_left: 0 },
                ActionKind::Abort(AbortCause::TooManyErrors),
            )
        },
        EventKind::HungUp => if state.delays_left > 0 {
            (
                LoopState { phase: Phase::Backoff, delays_left: (state.delays_left - 1) as nat },
                ActionKind::Sleep,
            )
        } else {
            (
                LoopState { phase: Phase::Aborted, delays_left: 0 },
                ActionKind::Abort(AbortCause::TooManyErrors),
            )
        },
        EventKind::TaskCompleted => (state, ActionKind::Receive),
        EventKind::TaskFailed => (
            LoopState { phase: Phase::Aborted, delays_left: state.delays_left },
            ActionKind::Abort(AbortCause::FatalError),
        ),
        EventKind::Resumed => (
            LoopState { phase: Phase::Connecting, delays_left: state.delays_left },
            ActionKind::Connect,
        ),
    }
}

/// The state of a loop that has not connected yet.
pub open spec fn initial_state() -> LoopState {
    LoopState { phase: Phase::Connecting, delays_left: STREAM_MAX_RETRIES as nat }
}

impl<G> Action<G> {
    /// The action without what it carries.
    pub open spec fn kind(self) -> ActionKind {
        match self {
            Action::Connect => ActionKind::Connect,
            Action::Receive => ActionKind::Receive,
            Action::Spawn { .. } => ActionKind::Spawn,
            Action::Pause(_) => ActionKind::Pause,
            Action::Sleep(_) => ActionKind::Sleep,
            Action::Abort(cause) => ActionKind::Abort(cause),
        }
    }
}

/// A consumer for requesting, receiving, and parsing messages from one or more
/// Kafka topics
#[derive(Debug)]
pub struct Consumer<G> {
    phase: Phase,
    policy: ExponentialBuilder,
    backoff: ExponentialBackoff,
    handler_policy: ExponentialBuilder,
    group: PhantomData<G>,
}

impl<G> View for Consumer<G> {
    type V = LoopState;

    closed spec fn view(&self) -> LoopState {
        LoopState { phase: self.phase, delays_left: delays_left(self.backoff) }
    }
}

impl<G> Consumer<G> {
    #[verifier::type_invariant]
    spec fn stream_policy_is_fixed(&self) -> bool {
        max_times_of(self.policy) == STREAM_MAX_RETRIES
    }
}

impl<G: MessageGroup> Consumer<G> {
    /// How many times each handler task retries its handler.
    pub closed spec fn handler_retries(&self) -> nat {
        max_times_of(self.handler_policy)
    }

    /// A consumer that has not connected yet, whose handler tasks will retry
    /// by `handler_policy`.
    pub fn new(handler_policy: ExponentialBuilder) -> (consumer: Self)
        ensures
            consumer@ == initial_state(),
            consumer.handler_retries() == max_times_of(handler_policy),
    {
        let policy = with_max_times(with_jitter(default_policy()), STREAM_MAX_RETRIES);
        let backoff = build(&policy);
        Consumer { phase: Phase::Connecting, policy, backoff, handler_policy, group: PhantomData }
    }

    /// Where the loop stands.
    pub fn phase(&self) -> (phase: Phase)
        ensures
            phase == self@.phase,
    {
        self.phase
    }

    /// Whether `event` can happen in the phase the loop stands in.
    pub fn expects(&self, event: &Event) -> (expected: bool)
        ensures
            expected == accepts(self@.phase, event_kind::<G>(*event)),
    {
        match event {
            Event::Connected => self.phase == Phase::Connecting,
            Event::Resumed => self.phase == Phase::Backoff,
            _ => self.phase == Phase::Receiving,
        }
    }

    /// Decide what the loop does about `event`, and move to the state that
    /// follows it.
    pub fn consume(&mut self, event: Event) -> (action: Action<G>)
        requires
            accepts(old(self)@.phase, event_kind::<G>(event)),
        ensures
            (final(self)@, action.kind()) == step(old(self)@, event_kind::<G>(event)),
            final(self).handler_retries() == old(self).handler_retries(),
            action matches Action::Spawn { event: decoded, task } ==> {
                &&& event matches Event::Polled(Some(Ok(record)))
                &&& decode_spec::<G>(record, Ok(decoded))
                &&& task.retries_left() == old(self).handler_retries()
            },
    {
        proof {
            use_type_invariant(&*self);
        }
        match event {
            Event::Connected => {
                self.phase = Phase::Receiving;
                Action::Receive
            },
            Event::Polled(Some(polled)) => match receive::<G>(polled) {
                Ok(decoded) => {
                    self.backoff = build(&self.policy);
                    Action::Spawn { event: decoded, task: HandlerTask::new(&self.handler_policy) }
                },
                Err(_) => match next_delay(&mut self.backoff) {
                    Some(delay) => Action::Pause(delay),
                    None => {
                        self.phase = Phase::Aborted;
                        Action::Abort(AbortCause::TooManyErrors)
                    },
                },
            },
            Event::Polled(None) => match next_delay(&mut self.backoff) {
                Some(delay) => {
                    self.phase = Phase::Backoff;
                    Action::Sleep(delay)
                },
                None => {
                    self.phase = Phase::Aborted;
                    Action::Abort(AbortCause::TooManyErrors)
                },
            },
            Event::Task(TaskEnd::Completed) => Action::Receive,
            Event::Task(TaskEnd::Failed) => {
                self.phase = Phase::Aborted;
                Action::Abort(AbortCause::FatalError)
            },
            Event::Resumed => {
                self.phase = Phase::Connecting;
                Action::Connect
            },
        }
    }
}

/// The state of the loop after a run of events, each decided by [`step`].
pub open spec fn after(state: LoopState, events: Seq<EventKind>) -> LoopState
    decreases events.len(),
{
    if events.len() == 0 {
        state
    } else {
        after(step(state, events[0]).0, events.drop_first())
    }
}

/// Once the loop has decided to abort, nothing can happen to it any more: no
/// record is processed and no task is spawned after that decision.
pub proof fn lemma_aborted_is_terminal(event: EventKind)
    ensures
        !accepts(Phase::Aborted, event),
{
}

/// A record that arrives on a topic outside the message group's subscription
/// never reaches a handler: it decodes to `BadTopic`, counts as a failure of
/// the stream, and no failure of the stream spawns a task.
pub proof fn lemma_unrequested_topic_is_never_handled<G: MessageGroup>(
    state: LoopState,
    record: Record,
    r: Result<G, RecvError>,
)
    requires
        !G::requested_topics_spec().contains(record.topic@),
        decode_spec::<G>(record, r),
    ensures
        r matches Err(RecvError::BadTopic(topic)) && topic@ == record.topic@,
        event_kind::<G>(Event::Polled(Some(Ok(record)))) is Undecoded,
        !(step(state, EventKind::Undecoded).1 is Spawn),
{
}

/// A handler task that fails in itself brings the process down, wherever the
/// count of delays stands.
pub proof fn lemma_task_failure_aborts(state: LoopState)
    ensures
        step(state, EventKind::TaskFailed).0.phase is Aborted,
        step(state, EventKind::TaskFailed).1 == ActionKind::Abort(AbortCause::FatalError),
{
}

/// While records keep arriving and decoding and handler tasks keep running to
/// their end, the loop stays where it is: it goes on receiving and its count of
/// delays stays at the full number.
pub proof fn lemma_steady_stream_keeps_backoff_fresh(events: Seq<EventKind>)
    requires
        forall|i: int|
            0 <= i < events.len() ==> events[i] is Decoded || events[i] is TaskCompleted,
    ensures
        after(
            LoopState { phase: Phase::Receiving, delays_left: STREAM_MAX_RETRIES as nat },
            events,
        ) == (LoopState { phase: Phase::Receiving, delays_left: STREAM_MAX_RETRIES as nat }),
    decreases events.len(),
{
    if events.len() > 0 {
        lemma_steady_stream_keeps_backoff_fresh(events.drop_first());
    }
}

/// Failures of the stream in a row are sat out for as long as delays are
/// left; the one that finds none left aborts the process.
pub proof fn lemma_failures_in_a_row_abort(state: LoopState, events: Seq<EventKind>)
    requires
        state.phase is Receiving,
        forall|i: int| 0 <= i < events.len() ==> events[i] is Undecoded,
    ensures
        events.len() <= state.delays_left ==> after(state, events) == (LoopState {
            phase: Phase::Receiving,
            delays_left: (state.delays_left - events.len()) as nat,
        }),
        events.len() == state.delays_left + 1 ==> after(state, events).phase is Aborted,
    decreases events.len(),
{
    if events.len() > 0 {
        if state.delays_left > 0 {
            lemma_failures_in_a_row_abort(step(state, events[0]).0, events.drop_first());
        } else if events.len() == 1 {
            assert(events.drop_first().len() == 0);
            assert(after(step(state, events[0]).0, events.drop_first()) == step(
                state,
                events[0],
            ).0);
        }
    }
}

} // verus!
