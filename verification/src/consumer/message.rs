//! Inbound records and their decoding into application events.

use vstd::prelude::*;
use rdkafka::error::KafkaError;
use crate::producer::{encoded_part, part_bytes, Message, Outbound};
use crate::triage::{Severity, Triage};
use crate::triage::kafka::describe;
use crate::util::text::{quoted, str_eq};

verus! {

/// An error originating from a received Kafka record
#[derive(Debug)]
pub enum RecvError {
    /// An error occurred reading data from the wire
    Kafka(KafkaError),
    /// An error occurred parsing data from the wire
    Protobuf(prost::DecodeError),
    /// The topic of a message did not match one of the expected topics of the
    /// message group
    BadTopic(String),
    /// A message had no key but the message group expected one
    MissingKey,
    /// A message had no payload but the message group expected one
    MissingPayload,
}

impl Triage for RecvError {
    /// A failure to read from the wire may pass, so receiving is tried again;
    /// a record that cannot be decoded will never decode.
    open spec fn severity_spec(&self) -> Severity {
        match self {
            RecvError::Kafka(_) => Severity::Transient,
            _ => Severity::Permanent,
        }
    }

    fn severity(&self) -> (s: Severity) {
        match self {
            RecvError::Kafka(_) => Severity::Transient,
            RecvError::Protobuf(_)
            | RecvError::BadTopic(_)
            | RecvError::MissingKey
            | RecvError::MissingPayload => Severity::Permanent,
        }
    }
}

impl RecvError {
    /// What is wrong, in words.
    pub fn message(&self) -> (text: String)
        ensures
            match *self {
                RecvError::Kafka(_) => "Error receiving messages from Kafka: "@.is_prefix_of(text@),
                RecvError::Protobuf(_) => text@ == "Error decoding Protobuf message"@,
                RecvError::BadTopic(_) => "Unexpected topic "@.is_prefix_of(text@),
                RecvError::MissingKey => text@ == "Expected a message key, but did not get one"@,
                RecvError::MissingPayload => text@
                    == "Expected a message payload, but did not get one"@,
            },
    {
        match self {
            RecvError::Kafka(e) => {
                let mut text = "Error receiving messages from Kafka: ".to_owned();
                text.append(describe(e).as_str());
                text
            },
            RecvError::Protobuf(_) => "Error decoding Protobuf message".to_owned(),
            RecvError::BadTopic(topic) => {
                let mut text = "Unexpected topic ".to_owned();
                text.append(quoted(topic.as_str()).as_str());
                text
            },
            RecvError::MissingKey => "Expected a message key, but did not get one".to_owned(),
            RecvError::MissingPayload => "Expected a message payload, but did not get one".to_owned(),
        }
    }
}

/// An error of the receive path is never fatal: it is retried or the record
/// is dropped, and only a run of such errors brings the process down.
pub proof fn lemma_recv_error_is_never_fatal(e: RecvError)
    ensures
        e.severity_spec() != Severity::Fatal,
{
}

impl From<KafkaError> for RecvError {
    fn from(e: KafkaError) -> (r: RecvError) {
        RecvError::Kafka(e)
    }
}

impl vstd::std_specs::convert::FromSpecImpl<KafkaError> for RecvError {
    open spec fn obeys_from_spec() -> bool {
        true
    }

    open spec fn from_spec(e: KafkaError) -> RecvError {
        RecvError::Kafka(e)
    }
}

impl From<prost::DecodeError> for RecvError {
    fn from(e: prost::DecodeError) -> (r: RecvError) {
        RecvError::Protobuf(e)
    }
}

impl vstd::std_specs::convert::FromSpecImpl<prost::DecodeError> for RecvError {
    open spec fn obeys_from_spec() -> bool {
        true
    }

    open spec fn from_spec(e: prost::DecodeError) -> RecvError {
        RecvError::Protobuf(e)
    }
}

/// A record as the broker hands it over: the topic it arrived on, and its
/// key and payload where it has them.
#[derive(Debug, Clone)]
pub struct Record {
    /// The topic the record arrived on
    pub topic: String,
    /// The raw bytes of the record's key, if it has one
    pub key: Option<Vec<u8>>,
    /// The raw bytes of the record's payload, if it has one
    pub payload: Option<Vec<u8>>,
}

/// The bytes of an optional part of a record, as a sequence.
pub open spec fn part_view(part: Option<Vec<u8>>) -> Option<Seq<u8>> {
    match part {
        Some(bytes) => Some(bytes@),
        None => None,
    }
}

/// The bytes of a borrowed optional part of a record, as a sequence.
pub open spec fn slice_view(part: Option<&[u8]>) -> Option<Seq<u8>> {
    match part {
        Some(bytes) => Some(bytes@),
        None => None,
    }
}

/// Parsing logic for incoming messages from multiple Kafka topics
pub trait MessageGroup: Sized {
    /// The topics this message group is interested in consuming. Each
    /// message group says here which they are.
    open spec fn requested_topics_spec() -> Seq<Seq<char>> {
        arbitrary()
    }

    /// What a record decodes to: a function of the topic and the raw bytes
    /// alone. Each message group says here what it is.
    open spec fn decoded(topic: Seq<char>, key: Option<Seq<u8>>, payload: Option<Seq<u8>>) -> Result<
        Self,
        RecvError,
    > {
        arbitrary()
    }

    /// The topics this message group is interested in consuming
    fn requested_topics() -> (topics: Vec<&'static str>)
        ensures
            topics@.len() == Self::requested_topics_spec().len(),
            forall|i: int|
                0 <= i < topics@.len() ==> (#[trigger] topics@[i])@
                    == Self::requested_topics_spec()[i],
    ;

    /// Construct a new member of this message group from an inbound Kafka
    /// record
    ///
    /// # Errors
    /// This function should return an error if the bytes of the message cannot
    /// be decoded according to the topic it was received from, if the topic is
    /// not listed among the requested topics, or if the message is missing
    /// required fields.
    fn from_message(topic: &str, key: Option<&[u8]>, payload: Option<&[u8]>) -> (r: Result<
        Self,
        RecvError,
    >)
        ensures
            r == Self::decoded(topic@, slice_view(key), slice_view(payload)),
    ;
}

/// What [`decode`] yields for a record: `BadTopic` for a topic outside the
/// group's subscription, and else what the group decodes the record to.
pub open spec fn decode_spec<G: MessageGroup>(record: Record, r: Result<G, RecvError>) -> bool {
    if G::requested_topics_spec().contains(record.topic@) {
        r == G::decoded(record.topic@, part_view(record.key), part_view(record.payload))
    } else {
        r matches Err(RecvError::BadTopic(t)) && t@ == record.topic@
    }
}

/// Whether `topic` is one of `topics`.
pub fn is_requested(topics: &Vec<&'static str>, topic: &str) -> (found: bool)
    ensures
        found == exists|i: int| 0 <= i < topics@.len() && (#[trigger] topics@[i])@ == topic@,
{
    let mut i: usize = 0;
    while i < topics.len()
        invariant
            i <= topics@.len(),
            forall|j: int| 0 <= j < i ==> (#[trigger] topics@[j])@ != topic@,
        decreases topics@.len() - i,
    {
        if str_eq(topics[i], topic) {
            return true;
        }
        i += 1;
    }
    false
}

/// Decode a record into a member of the message group `G`.
///
/// A record that arrived on a topic outside the group's subscription is never
/// handed to the group's decoder: it yields `BadTopic`.
pub fn decode<G: MessageGroup>(record: &Record) -> (r: Result<G, RecvError>)
    ensures
        decode_spec::<G>(*record, r),
{
    let topics = G::requested_topics();
    if !is_requested(&topics, record.topic.as_str()) {
        assert(!G::requested_topics_spec().contains(record.topic@)) by {
            if G::requested_topics_spec().contains(record.topic@) {
                let i = choose|i: int|
                    0 <= i < G::requested_topics_spec().len() && G::requested_topics_spec()[i]
                        == record.topic@;
                assert(topics@[i]@ == record.topic@);
            }
        }
        return Err(RecvError::BadTopic(record.topic.clone()));
    }
    assert(G::requested_topics_spec().contains(record.topic@)) by {
        let i = choose|i: int| 0 <= i < topics@.len() && (#[trigger] topics@[i])@ == record.topic@;
        assert(G::requested_topics_spec()[i] == record.topic@);
    }
    let key: Option<&[u8]> = match &record.key {
        Some(bytes) => Some(bytes.as_slice()),
        None => None,
    };
    let payload: Option<&[u8]> = match &record.payload {
        Some(bytes) => Some(bytes.as_slice()),
        None => None,
    };
    G::from_message(record.topic.as_str(), key, payload)
}

/// Turn what the record stream yielded into an application event: a
/// transport error is passed on as `Kafka`, a record is decoded.
pub fn receive<G: MessageGroup>(polled: Result<Record, KafkaError>) -> (r: Result<G, RecvError>)
    ensures
        match polled {
            Ok(record) => decode_spec::<G>(record, r),
            Err(e) => r == Err::<G, RecvError>(RecvError::Kafka(e)),
        },
{
    match polled {
        Ok(record) => decode(&record),
        Err(e) => Err(RecvError::Kafka(e)),
    }
}

/// A record comes out of the consumer as it went into the producer, given a
/// codec that matches: where the message group decodes the encodings of a
/// payload and a key on a topic it requests to an event, then the record that
/// the producer encodes of the two, handed over by the broker on that topic as it
/// was written, decodes to that event.
pub proof fn lemma_matching_codec_round_trips<G: MessageGroup, M: Message>(
    payload: Option<&M>,
    key: Option<&M::Key>,
    sent: Outbound,
    received: Record,
    event: G,
    r: Result<G, RecvError>,
)
    requires
        part_bytes(sent.payload) == encoded_part(payload),
        part_bytes(sent.key) == encoded_part(key),
        part_view(received.payload) == part_bytes(sent.payload),
        part_view(received.key) == part_bytes(sent.key),
        G::requested_topics_spec().contains(received.topic@),
        G::decoded(received.topic@, encoded_part(key), encoded_part(payload)) == Ok::<
            G,
            RecvError,
        >(event),
        decode_spec::<G>(received, r),
    ensures
        r == Ok::<G, RecvError>(event),
{
}

} // verus!
