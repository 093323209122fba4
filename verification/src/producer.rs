//! A Kafka record producer
//!
//! A producer writes each record to a partition of its topic chosen at
//! random. How many partitions the topic has is asked of the broker at most
//! once per refresh interval, by whichever sender first finds the cached
//! count stale; everyone else reads the cache.

use vstd::prelude::*;
use rdkafka::admin::TopicResult;
use rdkafka::error::{KafkaError, RDKafkaErrorCode};
use rdkafka::ClientConfig;
use std::sync::atomic::{AtomicI64, AtomicUsize, Ordering};
use std::sync::Arc;
use crate::triage::kafka::describe;
use crate::triage::{Severity, Triage};

verus! {

/// The age in seconds beyond which the cached partition count is refreshed.
pub const REFRESH_INTERVAL_SECS: i64 = 300;

/// Service startup configuration for producing Kafka records
#[derive(Debug)]
pub struct Config {
    pub(crate) topic: String,
    pub(crate) config: ClientConfig,
}

/// The topic that a producer asks the broker to create before it first
/// writes to it.
#[derive(Debug)]
pub struct NewTopic {
    /// The name of the new topic
    pub name: String,
    /// The initial number of partitions
    pub num_partitions: i32,
    /// The replication factor of every partition
    pub replication: i32,
}

/// Why a producer could not be built.
#[derive(Debug)]
pub enum BuildError {
    /// The admin client could not be created
    AdminClient(KafkaError),
    /// The request to create the topic failed as a whole
    CreateTopic(KafkaError),
    /// The broker refused to create the topic, for another reason than that
    /// it exists
    TopicRefused(RDKafkaErrorCode),
    /// The producer client could not be created
    Client(KafkaError),
}

impl Triage for BuildError {
    /// A producer that cannot be built fails for good.
    open spec fn severity_spec(&self) -> Severity {
        Severity::Permanent
    }

    fn severity(&self) -> (s: Severity) {
        Severity::Permanent
    }
}

/// Whether a protocol error code is the one by which the broker says that a
/// topic exists already.
pub uninterp spec fn is_topic_exists_code(code: RDKafkaErrorCode) -> bool;

/// Compares a protocol error code with `RDKafkaErrorCode::TopicAlreadyExists`.
/// Trusted: the same code always compares alike.
#[verifier::external_body]
fn topic_exists_code(code: &RDKafkaErrorCode) -> (exists: bool)
    ensures
        exists == is_topic_exists_code(*code),
{
    matches!(code, RDKafkaErrorCode::TopicAlreadyExists)
}

/// Whether an answer of the broker refuses a topic: it reports an error
/// other than that the topic exists already.
pub open spec fn refuses(result: TopicResult) -> bool {
    result matches Err((_, code)) && !is_topic_exists_code(code)
}

/// Whether the broker's answers leave the topic in existence: each says that
/// the topic was created or that it exists already.
pub open spec fn topics_exist(results: Seq<TopicResult>) -> bool {
    forall|i: int| 0 <= i < results.len() ==> !refuses(#[trigger] results[i])
}

/// Whether the answer at `i` is the first that refuses a topic.
pub open spec fn first_refusal(results: Seq<TopicResult>, i: int) -> bool {
    &&& 0 <= i < results.len()
    &&& refuses(results[i])
    &&& forall|j: int| 0 <= j < i ==> !refuses(#[trigger] results[j])
}

/// The protocol error code that an answer of the broker reports.
pub open spec fn code_of(result: TopicResult) -> RDKafkaErrorCode
    recommends
        result is Err,
{
    match result {
        Err((_, code)) => code,
        Ok(_) => arbitrary(),
    }
}

/// Where the first of the broker's answers that refuses a topic stands, if
/// any does.
fn first_refused(results: &Vec<TopicResult>) -> (at: Option<usize>)
    ensures
        at matches Some(i) ==> first_refusal(results@, i as int),
        at is None ==> topics_exist(results@),
{
    let mut i: usize = 0;
    while i < results.len()
        invariant
            i <= results@.len(),
            forall|j: int| 0 <= j < i ==> !refuses(#[trigger] results@[j]),
        decreases results@.len() - i,
    {
        if let Err((_, code)) = &results[i] {
            if !topic_exists_code(code) {
                return Some(i);
            }
        }
        i += 1;
    }
    None
}

impl Config {
    /// The topic that the producer will write to.
    pub closed spec fn topic_spec(&self) -> Seq<char> {
        self.topic@
    }

    /// The configuration that the producer's clients are created from.
    pub closed spec fn client_spec(&self) -> ClientConfig {
        self.config
    }

    /// The configuration of a producer for `topic` whose clients are created
    /// from `config`.
    pub fn new(topic: String, config: ClientConfig) -> (cfg: Config)
        ensures
            cfg.topic_spec() == topic@,
            cfg.client_spec() == config,
    {
        Config { topic, config }
    }

    /// The topic that the producer will write to.
    pub fn topic(&self) -> (topic: &str)
        ensures
            topic@ == self.topic_spec(),
    {
        self.topic.as_str()
    }

    /// The configuration that the producer's clients are created from.
    pub fn client_config(&self) -> (config: &ClientConfig)
        ensures
            *config == self.client_spec(),
    {
        &self.config
    }

    /// The request by which the producer's topic is created if it is absent:
    /// one partition, replicated once.
    pub fn new_topic(&self) -> (request: NewTopic)
        ensures
            request.name@ == self.topic_spec(),
            request.num_partitions == 1,
            request.replication == 1,
    {
        NewTopic { name: self.topic.clone(), num_partitions: 1, replication: 1 }
    }

    /// Judge the broker's answer to the request to create the topic.
    ///
    /// The producer can go on where the topic now exists: where every answer
    /// reports it as created or as existing already. A request that failed as a
    /// whole, or a topic refused for any other reason, ends the build.
    pub fn topic_created(answer: Result<Vec<TopicResult>, KafkaError>) -> (r: Result<
        (),
        BuildError,
    >)
        ensures
            match answer {
                Err(e) => r == Err::<(), BuildError>(BuildError::CreateTopic(e)),
                Ok(results) => if topics_exist(results@) {
                    r is Ok
                } else {
                    exists|i: int|
                        #[trigger] first_refusal(results@, i) && r == Err::<(), BuildError>(
                            BuildError::TopicRefused(code_of(results@[i])),
                        )
                },
            },
    {
        match answer {
            Err(e) => Err(BuildError::CreateTopic(e)),
            Ok(results) => match first_refused(&results) {
                Some(i) => match &results[i] {
                    Err((_, code)) => Err(BuildError::TopicRefused(*code)),
                    Ok(_) => Ok(()),
                },
                None => Ok(()),
            },
        }
    }

    /// Construct a new record producer from this config instance, once the
    /// topic exists. The producer starts with a partition count of one that
    /// has never been refreshed.
    pub fn build(self) -> (producer: Producer)
        ensures
            producer.topic_spec() == self.topic_spec(),
    {
        Producer { topic: self.topic, shared: Arc::new(Shared::default()) }
    }
}

/// Whether a partition count last refreshed at `last` is stale at `now`, both
/// in seconds: whether more than the refresh interval has passed.
pub open spec fn refresh_due(last: int, now: int) -> bool {
    last < now - REFRESH_INTERVAL_SECS
}

/// [`refresh_due`] of two times as the clock gives them.
pub open spec fn stale_at(last: i64, now: i64) -> bool {
    refresh_due(last as int, now as int)
}

/// Claim the refresh of a partition count last refreshed at `last`, at the
/// time `now`: where the count is stale the claim succeeds and `now` becomes
/// the time of the last refresh.
pub fn claim_refresh(last: i64, now: i64) -> (claim: Option<i64>)
    ensures
        claim == if stale_at(last, now) {
            Some(now)
        } else {
            None
        },
{
    match now.checked_sub(REFRESH_INTERVAL_SECS) {
        Some(threshold) => if last < threshold {
            Some(now)
        } else {
            None
        },
        None => None,
    }
}

/// How many refreshes a run of claims makes that are tried one after another
/// at the times `nows`, on a count last refreshed at `last`.
pub open spec fn refreshes(last: int, nows: Seq<int>) -> nat
    decreases nows.len(),
{
    if nows.len() == 0 {
        0
    } else if refresh_due(last, nows[0]) {
        1 + refreshes(nows[0], nows.drop_first())
    } else {
        refreshes(last, nows.drop_first())
    }
}

/// While the last refresh is recent, no claim succeeds, however many
/// are tried: no sender asks the broker again.
pub proof fn lemma_recent_count_is_not_refreshed(last: int, nows: Seq<int>)
    requires
        forall|i: int| 0 <= i < nows.len() ==> !refresh_due(last, nows[i]),
    ensures
        refreshes(last, nows) == 0,
    decreases nows.len(),
{
    if nows.len() > 0 {
        lemma_recent_count_is_not_refreshed(last, nows.drop_first());
    }
}

/// Of any number of senders that find the count stale within one refresh
/// interval of each other, exactly one wins the claim.
pub proof fn lemma_stale_count_is_refreshed_once(last: int, nows: Seq<int>)
    requires
        nows.len() > 0,
        forall|i: int| 0 <= i < nows.len() ==> refresh_due(last, nows[i]),
        forall|i: int, j: int|
            0 <= i < nows.len() && 0 <= j < nows.len() ==> nows[j] - nows[i]
                <= REFRESH_INTERVAL_SECS,
    ensures
        refreshes(last, nows) == 1,
{
    lemma_recent_count_is_not_refreshed(nows[0], nows.drop_first());
}

/// The partition that a pick stands for: the pick itself, or partition zero
/// where the pick is beyond what a partition index can hold.
pub open spec fn partition_of(pick: usize) -> i32 {
    if pick <= i32::MAX {
        pick as i32
    } else {
        0
    }
}

/// The partition that a pick stands for.
pub fn to_partition(pick: usize) -> (partition: i32)
    ensures
        partition == partition_of(pick),
        0 <= partition <= pick,
{
    if pick <= 0x7fff_ffff {
        pick as i32
    } else {
        0
    }
}

/// `Rng::gen_range` of rand's thread-local generator, on the range from zero
/// up to `bound`. Trusted: the pick lies in the range. An empty range is left
/// out, on which the generator panics.
#[verifier::external_body]
fn random_below(bound: usize) -> (pick: usize)
    requires
        bound > 0,
    ensures
        pick < bound,
{
    rand::Rng::gen_range(&mut rand::thread_rng(), 0..bound)
}

/// `chrono::Local::now` and `DateTime::timestamp`: the seconds since the Unix
/// epoch, by the system's clock. Nothing is promised of the clock.
#[verifier::external_body]
fn unix_now() -> i64 {
    chrono::Local::now().timestamp()
}

/// `AtomicI64::fetch_update` with [`claim_refresh`] at the time `now` as the
/// update. Trusted: the cell's earlier value comes back, as `Ok` where the
/// claim on that value succeeded and `now` was stored, and as `Err` where it
/// did not and the cell stayed as it was.
#[verifier::external_body]
fn fetch_claim(cell: &AtomicI64, now: i64) -> (earlier: Result<i64, i64>)
    ensures
        match earlier {
            Ok(last) => stale_at(last, now),
            Err(last) => !stale_at(last, now),
        },
{
    cell.fetch_update(Ordering::Release, Ordering::Acquire, |last| claim_refresh(last, now))
}

/// What the senders to one topic share: the partition count as it was last
/// known, and when it was last refreshed.
#[derive(Debug)]
struct Shared {
    partition_count: AtomicUsize,
    last_partition_check: AtomicI64,
}

impl Shared {
    /// One partition, never refreshed.
    fn default() -> Self {
        Shared {
            partition_count: AtomicUsize::new(1),
            last_partition_check: AtomicI64::new(i64::MIN),
        }
    }
}

/// An error originating from an outgoing Kafka record
#[derive(Debug)]
pub struct SendError(pub KafkaError);

impl SendError {
    /// What is wrong, in words.
    pub fn message(&self) -> (text: String)
        ensures
            "Error sending message to Kafka: "@.is_prefix_of(text@),
    {
        let mut text = "Error sending message to Kafka: ".to_owned();
        text.append(describe(&self.0).as_str());
        text
    }
}

impl BuildError {
    /// What is wrong, in words.
    pub fn message(&self) -> (text: &'static str)
        ensures
            text@ == match *self {
                BuildError::AdminClient(_) => "Failed to create Kafka admin client"@,
                BuildError::CreateTopic(_) | BuildError::TopicRefused(_) =>
                    "Failed to create test topic"@,
                BuildError::Client(_) => "Failed to create Kafka producer"@,
            },
    {
        match self {
            BuildError::AdminClient(_) => "Failed to create Kafka admin client",
            BuildError::CreateTopic(_) | BuildError::TopicRefused(_) => "Failed to create test topic",
            BuildError::Client(_) => "Failed to create Kafka producer",
        }
    }
}

impl Triage for SendError {
    /// A failed write is as severe as the transport error it wraps.
    open spec fn severity_spec(&self) -> Severity {
        self.0.severity_spec()
    }

    fn severity(&self) -> (s: Severity) {
        self.0.severity()
    }
}

/// A value with an encoding as bytes.
pub trait Encode {
    /// The bytes that the value encodes to. Each type of value says here
    /// what they are.
    open spec fn encoding(&self) -> Seq<u8> {
        arbitrary()
    }

    /// Encode the value.
    fn encode_to_vec(&self) -> (bytes: Vec<u8>)
        ensures
            bytes@ == self.encoding(),
    ;
}

/// A message payload with an associated key
pub trait Message: Encode {
    /// The key type for this message
    type Key: Encode;
}

/// The bytes of a record that is about to be written: its key and its
/// payload, where it has them.
#[derive(Debug)]
pub struct Outbound {
    /// The encoded key, if the record has one
    pub key: Option<Vec<u8>>,
    /// The encoded payload, if the record has one
    pub payload: Option<Vec<u8>>,
}

/// The encoding of an optional part of a record.
pub open spec fn encoded_part<T: Encode>(part: Option<&T>) -> Option<Seq<u8>> {
    match part {
        Some(value) => Some(value.encoding()),
        None => None,
    }
}

/// The bytes of an optional part of a record, as a sequence.
pub open spec fn part_bytes(part: Option<Vec<u8>>) -> Option<Seq<u8>> {
    match part {
        Some(bytes) => Some(bytes@),
        None => None,
    }
}

/// Encode a record: each of the payload and the key is encoded where it is
/// given, and stays absent where it is not.
pub fn encode<M: Message>(payload: Option<&M>, key: Option<&M::Key>) -> (record: Outbound)
    ensures
        part_bytes(record.payload) == encoded_part(payload),
        part_bytes(record.key) == encoded_part(key),
{
    Outbound {
        key: match key {
            Some(value) => Some(value.encode_to_vec()),
            None => None,
        },
        payload: match payload {
            Some(value) => Some(value.encode_to_vec()),
            None => None,
        },
    }
}

/// Something that happened in the course of one send.
#[derive(Debug)]
pub enum SendEvent {
    /// A record is to be sent
    Begin,
    /// The broker was asked for the topic's metadata: the partition count it
    /// reported, or `None` where asking failed
    Metadata(Option<usize>),
    /// The write was attempted: the partition and offset that the broker
    /// acknowledged, or the transport error
    Delivered(Result<(i32, i64), KafkaError>),
}

/// What the sender is to do next.
#[derive(Debug)]
pub enum SendAction {
    /// Ask the broker for the topic's metadata, then report `Metadata`
    FetchMetadata,
    /// Write the record to this partition, then report `Delivered`
    Publish { partition: i32 },
    /// The topic has no partition to write to
    NoPartitions,
    /// The send is over
    Done(Result<(), SendError>),
}

impl SendAction {
    /// Whether the action writes the record to a partition with an index from
    /// zero up to `bound`.
    pub open spec fn publishes_below(self, bound: usize) -> bool {
        self matches SendAction::Publish { partition } && 0 <= partition < bound
    }

    /// Whether the action writes the record to a partition.
    pub open spec fn publishes(self) -> bool {
        self matches SendAction::Publish { partition } && 0 <= partition
    }
}

/// A producer for emitting messages onto the Kafka topic identified by this
/// service's name
#[derive(Debug, Clone)]
pub struct Producer {
    topic: String,
    shared: Arc<Shared>,
}

impl Producer {
    /// The topic that this producer writes to.
    pub closed spec fn topic_spec(&self) -> Seq<char> {
        self.topic@
    }

    /// The topic that this producer writes to.
    pub fn topic(&self) -> (topic: &str)
        ensures
            topic@ == self.topic_spec(),
    {
        self.topic.as_str()
    }

    /// Choose the partition for a record of a topic with `partitions`
    /// partitions: any of them, or none where the topic has none.
    pub fn choose_partition(partitions: usize) -> (action: SendAction)
        ensures
            partitions == 0 ==> action is NoPartitions,
            partitions > 0 ==> action.publishes_below(partitions),
    {
        if partitions == 0 {
            SendAction::NoPartitions
        } else {
            SendAction::Publish { partition: to_partition(random_below(partitions)) }
        }
    }

    /// Begin a send at the time `now`, in seconds: claim the refresh of the
    /// partition count where it is stale, and else choose a partition by the
    /// count as it is cached.
    ///
    /// The broker is asked only by the sender whose claim succeeded, and a
    /// claim succeeds only on a time of the last refresh that is stale at
    /// `now`. Which time the claim finds, and which count is cached, is the
    /// shared cell's to say.
    pub fn begin_at(&self, now: i64) -> (action: SendAction)
        ensures
            action is FetchMetadata || action is NoPartitions || action.publishes(),
            action is FetchMetadata ==> exists|last: i64| stale_at(last, now),
    {
        let earlier = fetch_claim(&self.shared.last_partition_check, now);
        self.after_claim(earlier)
    }

    /// Go on with a send once the claim on the refresh is settled, `earlier`
    /// being what the claim returned: the winner of the claim asks the broker
    /// for the topic's metadata, and everyone else chooses a partition by the
    /// count as it is cached.
    pub fn after_claim(&self, earlier: Result<i64, i64>) -> (action: SendAction)
        ensures
            earlier is Ok <==> action is FetchMetadata,
            earlier is Err ==> action is NoPartitions || action.publishes(),
    {
        match earlier {
            Ok(_) => SendAction::FetchMetadata,
            Err(_) => Self::choose_partition(self.shared.partition_count.load(Ordering::Relaxed)),
        }
    }

    /// Send a single record to the Kafka broker, one step at a time: decide
    /// what the sender does about `event`.
    ///
    /// A send begins by claiming the refresh of the partition count if it is
    /// stale. The sender who wins the claim asks the broker; a count that comes
    /// back is cached and used, and where asking failed the cached count is
    /// used as it is. The record then goes to a partition chosen at random,
    /// and a failed write is reported as a [`SendError`].
    pub fn send(&self, event: SendEvent) -> (action: SendAction)
        ensures
            match event {
                SendEvent::Begin => action is FetchMetadata || action is NoPartitions
                    || action.publishes(),
                SendEvent::Metadata(Some(partitions)) => if partitions == 0 {
                    action is NoPartitions
                } else {
                    action.publishes_below(partitions)
                },
                SendEvent::Metadata(None) => action is NoPartitions || action.publishes(),
                SendEvent::Delivered(Ok(_)) => action matches SendAction::Done(Ok(_)),
                SendEvent::Delivered(Err(e)) => action matches SendAction::Done(Err(failed))
                    && failed.0 == e,
            },
    {
        match event {
            SendEvent::Begin => self.begin_at(unix_now()),
            SendEvent::Metadata(Some(partitions)) => {
                self.shared.partition_count.store(partitions, Ordering::Release);
                Self::choose_partition(partitions)
            },
            SendEvent::Metadata(None) => Self::choose_partition(
                self.shared.partition_count.load(Ordering::Relaxed),
            ),
            SendEvent::Delivered(Ok(_)) => SendAction::Done(Ok(())),
            SendEvent::Delivered(Err(e)) => SendAction::Done(Err(SendError(e))),
        }
    }
}

} // verus!
