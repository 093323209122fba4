use hub_core::producer::{
    claim_refresh, encode, to_partition, BuildError, Config, Encode, Message, Producer,
    SendAction, SendEvent, REFRESH_INTERVAL_SECS,
};
use hub_core::triage::{Severity, Triage};
use rdkafka::error::{KafkaError, RDKafkaErrorCode};

fn producer(topic: &str) -> Producer {
    Config::new(topic.into(), rdkafka::ClientConfig::new()).build()
}

#[test]
fn orders_scenario() {
    let orders = producer("orders");
    assert_eq!(orders.topic(), "orders");
    let mut fetches = 0;
    for _ in 0..1000 {
        let mut action = orders.send(SendEvent::Begin);
        if matches!(action, SendAction::FetchMetadata) {
            fetches += 1;
            action = orders.send(SendEvent::Metadata(Some(4)));
        }
        match action {
            SendAction::Publish { partition } => assert!((0..4).contains(&partition)),
            other => panic!("expected a partition, got {other:?}"),
        }
        assert!(matches!(
            orders.send(SendEvent::Delivered(Ok((0, 0)))),
            SendAction::Done(Ok(()))
        ));
    }
    assert_eq!(fetches, 1);
}

#[test]
fn first_send_claims_the_refresh() {
    let p = producer("t");
    assert!(matches!(p.begin_at(1_700_000_000), SendAction::FetchMetadata));
    // The claim is taken: nobody else refreshes within the interval.
    for seconds in 0..=REFRESH_INTERVAL_SECS {
        assert!(matches!(
            p.begin_at(1_700_000_000 + seconds),
            SendAction::Publish { partition: 0 }
        ));
    }
    // Once the interval has passed, the next sender refreshes, and only that
    // one.
    assert!(matches!(
        p.begin_at(1_700_000_000 + REFRESH_INTERVAL_SECS + 1),
        SendAction::FetchMetadata
    ));
    assert!(matches!(
        p.begin_at(1_700_000_000 + REFRESH_INTERVAL_SECS + 1),
        SendAction::Publish { .. }
    ));
}

#[test]
fn concurrent_senders_refresh_once() {
    let p = producer("t");
    let runtime = tokio::runtime::Builder::new_multi_thread()
        .worker_threads(4)
        .build()
        .unwrap();
    let workers: Vec<_> = (0..8)
        .map(|_| {
            let p = p.clone();
            runtime.spawn_blocking(move || {
                (0..100)
                    .filter(|_| matches!(p.begin_at(1_700_000_000), SendAction::FetchMetadata))
                    .count()
            })
        })
        .collect();
    let claims: usize = workers
        .into_iter()
        .map(|w| runtime.block_on(w).unwrap())
        .sum();
    assert_eq!(claims, 1);
}

#[test]
fn clones_share_the_cache() {
    let p = producer("t");
    let q = p.clone();
    assert!(matches!(p.begin_at(1_700_000_000), SendAction::FetchMetadata));
    assert!(matches!(q.begin_at(1_700_000_000), SendAction::Publish { .. }));
    assert!(matches!(
        p.send(SendEvent::Metadata(Some(16))),
        SendAction::Publish { .. }
    ));
    let mut seen = [false; 16];
    for _ in 0..2000 {
        match q.send(SendEvent::Metadata(None)) {
            SendAction::Publish { partition } => seen[partition as usize] = true,
            other => panic!("expected a partition, got {other:?}"),
        }
    }
    assert!(seen.iter().all(|s| *s));
}

#[test]
fn failed_refresh_falls_back_to_the_cache() {
    let p = producer("t");
    assert!(matches!(
        p.send(SendEvent::Metadata(None)),
        SendAction::Publish { partition: 0 }
    ));
    assert!(matches!(
        p.send(SendEvent::Metadata(Some(3))),
        SendAction::Publish { partition: 0..=2 }
    ));
    for _ in 0..100 {
        assert!(matches!(
            p.send(SendEvent::Metadata(None)),
            SendAction::Publish { partition: 0..=2 }
        ));
    }
}

#[test]
fn topic_without_partitions() {
    let p = producer("t");
    assert!(matches!(
        p.send(SendEvent::Metadata(Some(0))),
        SendAction::NoPartitions
    ));
    assert!(matches!(Producer::choose_partition(0), SendAction::NoPartitions));
    assert!(matches!(
        Producer::choose_partition(1),
        SendAction::Publish { partition: 0 }
    ));
}

#[test]
fn claim_refresh_values() {
    assert_eq!(claim_refresh(i64::MIN, 0), Some(0));
    assert_eq!(claim_refresh(700, 1000), None);
    assert_eq!(claim_refresh(699, 1000), Some(1000));
    assert_eq!(claim_refresh(1000, 1000), None);
    assert_eq!(claim_refresh(2000, 1000), None);
    // A time so early that no time lies an interval before it.
    assert_eq!(claim_refresh(i64::MIN, i64::MIN + 10), None);
    assert_eq!(claim_refresh(i64::MIN, i64::MIN + 300), None);
    assert_eq!(claim_refresh(i64::MIN, i64::MIN + 301), Some(i64::MIN + 301));
    assert_eq!(claim_refresh(0, i64::MAX), Some(i64::MAX));
    assert_eq!(REFRESH_INTERVAL_SECS, 300);
}

#[test]
fn to_partition_values() {
    assert_eq!(to_partition(0), 0);
    assert_eq!(to_partition(5), 5);
    assert_eq!(to_partition(i32::MAX as usize), i32::MAX);
    assert_eq!(to_partition(i32::MAX as usize + 1), 0);
    assert_eq!(to_partition(usize::MAX), 0);
}

#[test]
fn failed_write_is_a_send_error() {
    let p = producer("t");
    let failed = KafkaError::MessageProduction(RDKafkaErrorCode::MessageSizeTooLarge);
    match p.send(SendEvent::Delivered(Err(failed))) {
        SendAction::Done(Err(e)) => {
            assert!(matches!(
                e.0,
                KafkaError::MessageProduction(RDKafkaErrorCode::MessageSizeTooLarge)
            ));
            assert_eq!(e.severity(), Severity::Transient);
        },
        other => panic!("expected an error, got {other:?}"),
    }
    match p.send(SendEvent::Delivered(Err(KafkaError::Canceled))) {
        SendAction::Done(Err(e)) => assert_eq!(e.severity(), Severity::Permanent),
        other => panic!("expected an error, got {other:?}"),
    }
}

#[test]
fn new_topic_request() {
    let cfg = Config::new("orders".into(), rdkafka::ClientConfig::new());
    let request = cfg.new_topic();
    assert_eq!(request.name, "orders");
    assert_eq!(request.num_partitions, 1);
    assert_eq!(request.replication, 1);
    assert_eq!(cfg.topic(), "orders");
}

#[test]
fn topic_created_or_existing() {
    assert!(Config::topic_created(Ok(vec![Ok("orders".into())])).is_ok());
    assert!(Config::topic_created(Ok(vec![Err((
        "orders".into(),
        RDKafkaErrorCode::TopicAlreadyExists
    ))]))
    .is_ok());
    assert!(Config::topic_created(Ok(vec![])).is_ok());
}

#[test]
fn topic_refused() {
    let r = Config::topic_created(Ok(vec![
        Ok("a".into()),
        Err(("b".into(), RDKafkaErrorCode::TopicAlreadyExists)),
        Err(("c".into(), RDKafkaErrorCode::InvalidReplicationFactor)),
        Err(("d".into(), RDKafkaErrorCode::PolicyViolation)),
    ]));
    match r {
        Err(e) => {
            assert!(matches!(
                e,
                BuildError::TopicRefused(RDKafkaErrorCode::InvalidReplicationFactor)
            ));
            assert_eq!(e.severity(), Severity::Permanent);
        },
        Ok(()) => panic!("a refused topic must fail the build"),
    }
}

#[test]
fn topic_request_failed() {
    let r = Config::topic_created(Err(KafkaError::Canceled));
    assert!(matches!(r, Err(BuildError::CreateTopic(KafkaError::Canceled))));
}

struct Text(&'static str);

impl Encode for Text {
    fn encode_to_vec(&self) -> Vec<u8> {
        self.0.as_bytes().to_vec()
    }
}

struct Number(u8);

impl Encode for Number {
    fn encode_to_vec(&self) -> Vec<u8> {
        vec![self.0]
    }
}

impl Message for Text {
    type Key = Number;
}

#[test]
fn record_parts_are_encoded_independently() {
    let record = encode(Some(&Text("hi")), Some(&Number(7)));
    assert_eq!(record.payload.as_deref(), Some(&b"hi"[..]));
    assert_eq!(record.key.as_deref(), Some(&[7][..]));
    let record = encode(Some(&Text("")), None);
    assert_eq!(record.payload.as_deref(), Some(&b""[..]));
    assert_eq!(record.key, None);
    let record = encode::<Text>(None, Some(&Number(0)));
    assert_eq!(record.payload, None);
    assert_eq!(record.key.as_deref(), Some(&[0][..]));
    let record = encode::<Text>(None, None);
    assert_eq!(record.payload, None);
    assert_eq!(record.key, None);
}

#[test]
fn error_messages() {
    let p = producer("t");
    match p.send(SendEvent::Delivered(Err(KafkaError::Canceled))) {
        SendAction::Done(Err(e)) => assert_eq!(
            e.message(),
            format!("Error sending message to Kafka: {}", KafkaError::Canceled)
        ),
        other => panic!("expected an error, got {other:?}"),
    }
    assert_eq!(
        BuildError::AdminClient(KafkaError::Canceled).message(),
        "Failed to create Kafka admin client"
    );
    assert_eq!(
        BuildError::CreateTopic(KafkaError::Canceled).message(),
        "Failed to create test topic"
    );
    assert_eq!(
        BuildError::TopicRefused(RDKafkaErrorCode::PolicyViolation).message(),
        "Failed to create test topic"
    );
    assert_eq!(
        BuildError::Client(KafkaError::Canceled).message(),
        "Failed to create Kafka producer"
    );
}

#[test]
fn claim_decides_who_asks_the_broker() {
    let p = producer("t");
    assert!(matches!(p.after_claim(Ok(i64::MIN)), SendAction::FetchMetadata));
    assert!(matches!(p.after_claim(Ok(0)), SendAction::FetchMetadata));
    assert!(matches!(
        p.after_claim(Err(0)),
        SendAction::Publish { partition: 0 }
    ));
    // At a time so early that no time lies an interval before it, nobody
    // refreshes, not even the first sender.
    let q = producer("t");
    assert!(matches!(
        q.begin_at(i64::MIN + 300),
        SendAction::Publish { partition: 0 }
    ));
    assert!(matches!(q.begin_at(i64::MIN + 301), SendAction::FetchMetadata));
}
