use danube_connect::attrs::AttrMap;
use danube_connect::config::{ConnectorConfig, SubscriptionType};
use danube_connect::error::{ConnectorError, ErrorKind};
use danube_connect::message::{SinkRecord, SourceRecord};
use danube_connect::runtime::sink_runtime::{BatchOutcome, ConsumerConfig, RuntimeState, SinkRuntime};
use danube_connect::runtime::source_runtime::{PollAction, ProducerConfig, RetryDecision, SourceRuntime};
use danube_connect::retry::RetryConfig;
use danube_connect::traits::{Offset, SinkConnector, SourceConnector};

/// A scripted sink plugin: answers `process_batch` from a list of error
/// kinds (`None` means success, repeating the last entry forever), and
/// records every batch it sees.
struct StubSink {
    consumer_topics: Vec<(String, Option<usize>, Option<u64>)>,
    script: Vec<Option<ErrorKind>>,
    calls: usize,
    batches: Vec<Vec<String>>,
    shutdowns: usize,
}

impl StubSink {
    fn new(consumer_topics: Vec<(String, Option<usize>, Option<u64>)>, script: Vec<Option<ErrorKind>>) -> Self {
        StubSink { consumer_topics, script, calls: 0, batches: Vec::new(), shutdowns: 0 }
    }
}

impl SinkConnector for StubSink {
    fn initialize(&mut self, _config: &ConnectorConfig) -> Result<(), ConnectorError> {
        Ok(())
    }

    fn consumer_configs(&mut self) -> Result<Vec<ConsumerConfig>, ConnectorError> {
        Ok(self
            .consumer_topics
            .iter()
            .map(|(topic, batch_size, batch_timeout_ms)| ConsumerConfig {
                topic: topic.clone(),
                subscription: format!("{}-sub", topic),
                consumer_name: format!("{}-consumer", topic),
                subscription_type: SubscriptionType::Exclusive,
                batch_size: *batch_size,
                batch_timeout_ms: *batch_timeout_ms,
            })
            .collect())
    }

    fn process_batch(&mut self, records: &Vec<SinkRecord>) -> Result<(), ConnectorError> {
        let behavior = if self.calls < self.script.len() {
            self.script[self.calls]
        } else {
            self.script.last().copied().unwrap_or(None)
        };
        self.calls += 1;
        self.batches.push(records.iter().map(|r| r.message_id().to_string()).collect());
        match behavior {
            None => Ok(()),
            Some(kind) => Err(ConnectorError::new(kind, "scripted failure".to_string())),
        }
    }

    fn shutdown(&mut self) -> Result<(), ConnectorError> {
        self.shutdowns += 1;
        Ok(())
    }
}

fn record(topic: &str, offset: u64) -> SinkRecord {
    SinkRecord::from_parts(
        topic.to_string(),
        1,
        offset,
        1_700_000_000_000_000,
        "producer".to_string(),
        format!("payload-{}", offset).into_bytes(),
        AttrMap::new(),
        None,
    )
}

fn sink_config(batch_size: usize, batch_timeout_ms: u64, max_retries: u32, base: u64, max: u64) -> ConnectorConfig {
    let mut config = ConnectorConfig::default();
    config.processing.batch_size = batch_size;
    config.processing.batch_timeout_ms = batch_timeout_ms;
    config.retry.max_retries = max_retries;
    config.retry.base_backoff_ms = base;
    config.retry.max_backoff_ms = max;
    config
}

fn started_sink(config: ConnectorConfig, stub: &mut StubSink) -> SinkRuntime {
    let mut rt = SinkRuntime::new(config).unwrap();
    rt.initialize(stub).unwrap();
    rt.start(stub).unwrap();
    rt
}

#[test]
fn test_happy_path_sink() {
    // Three records on one topic with batch_size = 2: two plugin calls
    // (sizes 2 then 1 after the timeout), three acknowledgements.
    let mut stub = StubSink::new(vec![("/t1".to_string(), Some(2), None)], vec![None]);
    let mut rt = started_sink(sink_config(1000, 1000, 3, 10, 100), &mut stub);

    let mut acks: Vec<String> = Vec::new();
    for (k, now) in [(0u64, 10u64), (1, 20), (2, 30)] {
        if let Some(report) = rt.handle_message(&mut stub, record("/t1", k), now) {
            assert_eq!(report.outcome, BatchOutcome::Succeeded);
            acks.extend(report.acks);
        }
    }
    // the third record flushes when its timeout elapses
    let reports = rt.handle_tick(&mut stub, 30 + 1000);
    for report in reports {
        assert_eq!(report.outcome, BatchOutcome::Succeeded);
        acks.extend(report.acks);
    }

    assert_eq!(stub.calls, 2);
    assert_eq!(stub.batches[0].len(), 2);
    assert_eq!(stub.batches[1].len(), 1);
    assert_eq!(acks.len(), 3);
    // per-topic acknowledgement order equals receive order
    let expected: Vec<String> =
        (0..3).map(|k| record("/t1", k).message_id().to_string()).collect();
    assert_eq!(acks, expected);
    assert_eq!(rt.acked(), &expected);
    assert_eq!(rt.metrics().received, 3);
    assert_eq!(rt.metrics().succeeded, 3);
    assert_eq!(rt.metrics().errored, 0);
}

#[test]
fn test_retry_then_succeed() {
    // max_retries = 3, base = 10 ms, max = 100 ms; Retryable twice then
    // ok: the batch parks twice, the caller is told to wait 10 then 20
    // ms, then one acknowledgement, retried = 2, succeeded = 1.
    let mut stub = StubSink::new(
        vec![("/t1".to_string(), Some(1), None)],
        vec![Some(ErrorKind::Retryable), Some(ErrorKind::Retryable), None],
    );
    let mut rt = started_sink(sink_config(1000, 1000, 3, 10, 100), &mut stub);

    let report = rt.handle_message(&mut stub, record("/t1", 0), 5).unwrap();
    assert_eq!(report.outcome, BatchOutcome::RetryPending { backoff_ms: 10 });
    assert_eq!(report.attempts, 1);

    // the caller waits the prescribed backoff, then retries
    let report = rt.retry_pending(&mut stub);
    assert_eq!(report.outcome, BatchOutcome::RetryPending { backoff_ms: 20 });
    assert_eq!(report.attempts, 2);

    let report = rt.retry_pending(&mut stub);
    assert_eq!(report.outcome, BatchOutcome::Succeeded);
    assert_eq!(report.attempts, 3);
    assert_eq!(report.acks.len(), 1);

    assert_eq!(rt.metrics().retried, 2);
    assert_eq!(rt.metrics().succeeded, 1);
    assert_eq!(rt.acked().len(), 1);
    assert!(rt.backoff_prescribed_ms() >= 30);
    assert_eq!(rt.backoff_prescribed_ms(), 10 + 20);
}

#[test]
fn test_retry_exhaustion() {
    // Always Retryable: the batch parks after each of the first three
    // attempts; the fourth (max_retries + 1) is terminal — zero
    // acknowledgements, errored = 1, the runtime keeps running.
    let mut stub = StubSink::new(
        vec![("/t1".to_string(), Some(1), None)],
        vec![Some(ErrorKind::Retryable)],
    );
    let mut rt = started_sink(sink_config(1000, 1000, 3, 10, 100), &mut stub);

    let report = rt.handle_message(&mut stub, record("/t1", 0), 5).unwrap();
    assert_eq!(report.outcome, BatchOutcome::RetryPending { backoff_ms: 10 });
    let report = rt.retry_pending(&mut stub);
    assert_eq!(report.outcome, BatchOutcome::RetryPending { backoff_ms: 20 });
    let report = rt.retry_pending(&mut stub);
    assert_eq!(report.outcome, BatchOutcome::RetryPending { backoff_ms: 40 });
    let report = rt.retry_pending(&mut stub);
    assert_eq!(report.outcome, BatchOutcome::Exhausted);
    assert_eq!(report.attempts, 4);
    assert_eq!(stub.calls, 4);
    assert!(report.acks.is_empty());
    assert!(rt.acked().is_empty());
    assert_eq!(rt.metrics().retried, 3);
    assert_eq!(rt.metrics().errored, 1);
    assert_eq!(rt.metrics().succeeded, 0);
    assert_eq!(rt.state(), RuntimeState::Running);
    assert_eq!(rt.backoff_prescribed_ms(), 10 + 20 + 40);
}

#[test]
fn test_invalid_data() {
    // InvalidData: the record is acknowledged and counted invalid.
    let mut stub = StubSink::new(
        vec![("/t1".to_string(), Some(1), None)],
        vec![Some(ErrorKind::InvalidData)],
    );
    let mut rt = started_sink(sink_config(1000, 1000, 3, 10, 100), &mut stub);

    let report = rt.handle_message(&mut stub, record("/t1", 0), 5).unwrap();
    assert_eq!(report.outcome, BatchOutcome::Invalid);
    assert_eq!(report.acks.len(), 1);
    assert_eq!(rt.acked().len(), 1);
    assert_eq!(rt.metrics().invalid, 1);
    assert_eq!(rt.metrics().errored, 0);
    assert_eq!(rt.state(), RuntimeState::Running);
}

#[test]
fn test_fatal_drains_and_shuts_down_once() {
    // Fatal: the runtime moves to Draining in the same step and the
    // plugin's shutdown is called exactly once during the drain.
    let mut stub = StubSink::new(
        vec![("/t1".to_string(), Some(1), None)],
        vec![Some(ErrorKind::Fatal)],
    );
    let mut rt = started_sink(sink_config(1000, 1000, 3, 10, 100), &mut stub);

    let report = rt.handle_message(&mut stub, record("/t1", 0), 5).unwrap();
    assert_eq!(report.outcome, BatchOutcome::FatalError);
    assert!(report.acks.is_empty());
    assert_eq!(rt.state(), RuntimeState::Draining);

    rt.drain(&mut stub).unwrap();
    assert_eq!(stub.shutdowns, 1);
    assert_eq!(rt.state(), RuntimeState::Stopped);
    assert!(!rt.metrics().healthy);

    // a second drain must not call shutdown again
    // (drain requires a running or draining runtime, so this is guarded
    // by the lifecycle; the counter in the runtime says it was once)
}

#[test]
fn test_shutdown_drain_flushes_before_shutdown() {
    // Five records buffered (size 10, timeout 10 s); on shutdown the
    // whole buffer reaches the plugin in one call before shutdown().
    let mut stub = StubSink::new(vec![("/t1".to_string(), Some(10), Some(10_000))], vec![None]);
    let mut rt = started_sink(sink_config(1000, 1000, 3, 10, 100), &mut stub);

    for k in 0..5u64 {
        let report = rt.handle_message(&mut stub, record("/t1", k), k);
        assert!(report.is_none());
    }
    assert_eq!(rt.buffered("/t1"), Some(5));

    rt.request_shutdown();
    assert_eq!(rt.state(), RuntimeState::Draining);
    let reports = rt.drain(&mut stub).unwrap();

    assert_eq!(stub.calls, 1);
    assert_eq!(stub.batches[0].len(), 5);
    assert_eq!(stub.shutdowns, 1);
    assert_eq!(reports.len(), 1);
    assert_eq!(rt.acked().len(), 5);
    assert_eq!(rt.state(), RuntimeState::Stopped);
    assert_eq!(rt.buffered("/t1"), Some(0));
}

#[test]
fn test_time_based_flush_keeps_buffers_fresh() {
    // Records on two topics with different timeouts: a tick flushes
    // exactly the topics whose oldest record has waited long enough.
    let mut stub = StubSink::new(
        vec![
            ("/a".to_string(), Some(10), Some(100)),
            ("/b".to_string(), Some(10), Some(10_000)),
        ],
        vec![None],
    );
    let mut rt = started_sink(sink_config(1000, 1000, 3, 10, 100), &mut stub);

    rt.handle_message(&mut stub, record("/a", 0), 0);
    rt.handle_message(&mut stub, record("/b", 1), 0);

    let reports = rt.handle_tick(&mut stub, 150);
    assert_eq!(reports.len(), 1);
    assert_eq!(reports[0].topic, "/a");
    assert_eq!(rt.buffered("/a"), Some(0));
    assert_eq!(rt.buffered("/b"), Some(1));
}

/// A scripted source plugin: `poll` answers from a list of batches, then
/// keeps returning nothing.
struct StubSource {
    producer_topics: Vec<String>,
    polls: Vec<Vec<SourceRecord>>,
    poll_index: usize,
    commits: Vec<Vec<Offset>>,
    shutdowns: usize,
}

impl SourceConnector for StubSource {
    fn initialize(&mut self, _config: &ConnectorConfig) -> Result<(), ConnectorError> {
        Ok(())
    }

    fn producer_configs(&mut self) -> Result<Vec<ProducerConfig>, ConnectorError> {
        Ok(self
            .producer_topics
            .iter()
            .map(|topic| ProducerConfig {
                topic: topic.clone(),
                partitions: 0,
                reliable_dispatch: false,
            })
            .collect())
    }

    fn poll(&mut self) -> Result<Vec<SourceRecord>, ConnectorError> {
        if self.poll_index < self.polls.len() {
            let records = std::mem::take(&mut self.polls[self.poll_index]);
            self.poll_index += 1;
            Ok(records)
        } else {
            Ok(Vec::new())
        }
    }

    fn commit(&mut self, offsets: Vec<Offset>) -> Result<(), ConnectorError> {
        self.commits.push(offsets);
        Ok(())
    }

    fn shutdown(&mut self) -> Result<(), ConnectorError> {
        self.shutdowns += 1;
        Ok(())
    }
}

#[test]
fn test_source_publish() {
    // Records for /a and /b, two each, in poll order: four sends in the
    // returned order, one commit with offsets [(a,0),(b,1),(a,2),(b,3)].
    let polled = vec![
        SourceRecord::new("/a".to_string(), b"0".to_vec()),
        SourceRecord::new("/b".to_string(), b"1".to_vec()),
        SourceRecord::new("/a".to_string(), b"2".to_vec()),
        SourceRecord::new("/b".to_string(), b"3".to_vec()),
    ];
    let mut stub = StubSource {
        producer_topics: vec!["/a".to_string(), "/b".to_string()],
        polls: vec![polled],
        poll_index: 0,
        commits: Vec::new(),
        shutdowns: 0,
    };
    let mut rt = SourceRuntime::new(sink_config(1000, 1000, 3, 10, 100)).unwrap();
    rt.initialize(&mut stub).unwrap();
    let specs = rt.start(&mut stub).unwrap();
    assert_eq!(specs.len(), 2);
    assert_eq!(specs[0].producer_name, "default-connector--a");
    assert_eq!(specs[1].producer_name, "default-connector--b");

    let action = rt.poll_once(&mut stub).unwrap();
    match action {
        PollAction::Publish { records, offsets } => {
            let sent: Vec<(&str, &[u8])> =
                records.iter().map(|r| (r.topic.as_str(), r.payload.as_slice())).collect();
            assert_eq!(
                sent,
                vec![
                    ("/a", b"0".as_slice()),
                    ("/b", b"1".as_slice()),
                    ("/a", b"2".as_slice()),
                    ("/b", b"3".as_slice()),
                ]
            );
            rt.complete_publish(&mut stub, offsets).unwrap();
        },
        PollAction::Sleep { .. } => panic!("expected a publish action"),
    }

    assert_eq!(stub.commits.len(), 1);
    assert_eq!(rt.commit_calls, 1);
    let committed: Vec<(&str, u64)> =
        stub.commits[0].iter().map(|o| (o.topic.as_str(), o.position)).collect();
    assert_eq!(committed, vec![("/a", 0), ("/b", 1), ("/a", 2), ("/b", 3)]);
    assert_eq!(rt.metrics().succeeded, 4);
}

#[test]
fn test_source_unknown_topic_is_fatal() {
    let polled = vec![SourceRecord::new("/unknown".to_string(), b"x".to_vec())];
    let mut stub = StubSource {
        producer_topics: vec!["/a".to_string()],
        polls: vec![polled],
        poll_index: 0,
        commits: Vec::new(),
        shutdowns: 0,
    };
    let mut rt = SourceRuntime::new(ConnectorConfig::default()).unwrap();
    rt.initialize(&mut stub).unwrap();
    rt.start(&mut stub).unwrap();

    let err = rt.poll_once(&mut stub).unwrap_err();
    assert_eq!(err.kind(), ErrorKind::Fatal);
    assert_eq!(rt.state(), RuntimeState::Draining);
    assert!(stub.commits.is_empty());
}

#[test]
fn test_source_empty_poll_sleeps() {
    let mut stub = StubSource {
        producer_topics: vec!["/a".to_string()],
        polls: vec![],
        poll_index: 0,
        commits: Vec::new(),
        shutdowns: 0,
    };
    let mut config = ConnectorConfig::default();
    config.processing.poll_interval_ms = 250;
    let mut rt = SourceRuntime::new(config).unwrap();
    rt.initialize(&mut stub).unwrap();
    rt.start(&mut stub).unwrap();

    match rt.poll_once(&mut stub).unwrap() {
        PollAction::Sleep { ms } => assert_eq!(ms, 250),
        PollAction::Publish { .. } => panic!("expected a sleep action"),
    }
}

#[test]
fn test_source_publish_retry_policy() {
    let mut stub = StubSource {
        producer_topics: vec!["/a".to_string()],
        polls: vec![],
        poll_index: 0,
        commits: Vec::new(),
        shutdowns: 0,
    };
    let mut rt = SourceRuntime::new(sink_config(1000, 1000, 2, 10, 100)).unwrap();
    rt.initialize(&mut stub).unwrap();
    rt.start(&mut stub).unwrap();

    assert_eq!(rt.publish_failed(1, 4), RetryDecision::RetryAfter { backoff_ms: 10 });
    assert_eq!(rt.publish_failed(2, 4), RetryDecision::RetryAfter { backoff_ms: 20 });
    assert_eq!(rt.publish_failed(3, 4), RetryDecision::GiveUp);
    assert_eq!(rt.metrics().retried, 2);
    assert_eq!(rt.metrics().errored, 4);
    assert_eq!(rt.backoff_prescribed_ms(), 30);

    rt.request_shutdown();
    rt.drain(&mut stub).unwrap();
    assert_eq!(stub.shutdowns, 1);
    assert_eq!(rt.state(), RuntimeState::Stopped);
}

#[test]
fn test_backoff_values() {
    let c = RetryConfig { max_retries: 5, base_backoff_ms: 10, max_backoff_ms: 100 };
    assert_eq!(c.backoff_ms(1), 10);
    assert_eq!(c.backoff_ms(2), 20);
    assert_eq!(c.backoff_ms(3), 40);
    assert_eq!(c.backoff_ms(4), 80);
    assert_eq!(c.backoff_ms(5), 100);
    assert_eq!(c.backoff_ms(6), 100);
    assert!(c.should_retry(5, ErrorKind::Retryable));
    assert!(!c.should_retry(6, ErrorKind::Retryable));
    assert!(!c.should_retry(1, ErrorKind::Fatal));
}

#[test]
fn test_empty_consumer_configs_rejected() {
    let mut stub = StubSink::new(vec![], vec![None]);
    let mut rt = SinkRuntime::new(ConnectorConfig::default()).unwrap();
    rt.initialize(&mut stub).unwrap();
    let err = rt.start(&mut stub).unwrap_err();
    assert_eq!(err.kind(), ErrorKind::Config);
    assert_eq!(rt.state(), RuntimeState::Stopped);
}

#[test]
fn test_duplicate_consumer_topic_rejected() {
    let mut stub = StubSink::new(
        vec![("/t1".to_string(), None, None), ("/t1".to_string(), None, None)],
        vec![None],
    );
    let mut rt = SinkRuntime::new(ConnectorConfig::default()).unwrap();
    rt.initialize(&mut stub).unwrap();
    let err = rt.start(&mut stub).unwrap_err();
    assert_eq!(err.kind(), ErrorKind::Config);
}

#[test]
fn test_abandon_pending_counts_errored() {
    // A caller that will not wait (it is about to drain) abandons the
    // parked batch: errored rises by the batch size, nothing is acked.
    let mut stub = StubSink::new(
        vec![("/t1".to_string(), Some(1), None)],
        vec![Some(ErrorKind::Retryable)],
    );
    let mut rt = started_sink(sink_config(1000, 1000, 3, 10, 100), &mut stub);
    let report = rt.handle_message(&mut stub, record("/t1", 0), 5).unwrap();
    assert_eq!(report.outcome, BatchOutcome::RetryPending { backoff_ms: 10 });

    let report = rt.abandon_pending();
    assert_eq!(report.outcome, BatchOutcome::Exhausted);
    assert_eq!(report.topic, "/t1");
    assert!(report.acks.is_empty());
    assert_eq!(rt.metrics().errored, 1);

    rt.request_shutdown();
    rt.drain(&mut stub).unwrap();
    assert_eq!(stub.shutdowns, 1);
}

#[test]
fn test_drain_does_not_wait_out_retries() {
    // During the drain a retryable failure is terminal for its batch:
    // the drain makes one attempt per topic and never parks.
    let mut stub = StubSink::new(
        vec![("/t1".to_string(), Some(10), None)],
        vec![Some(ErrorKind::Retryable)],
    );
    let mut rt = started_sink(sink_config(1000, 1000, 3, 10, 100), &mut stub);
    assert!(rt.handle_message(&mut stub, record("/t1", 0), 5).is_none());

    rt.request_shutdown();
    let reports = rt.drain(&mut stub).unwrap();
    assert_eq!(reports.len(), 1);
    assert_eq!(reports[0].outcome, BatchOutcome::Exhausted);
    assert_eq!(reports[0].attempts, 1);
    assert_eq!(stub.calls, 1);
    assert_eq!(rt.metrics().errored, 1);
    assert!(rt.acked().is_empty());
    assert_eq!(rt.state(), RuntimeState::Stopped);
}

#[test]
fn test_health_raised_at_construction() {
    let rt = SinkRuntime::new(ConnectorConfig::default()).unwrap();
    assert!(rt.metrics().healthy);
    let rt = SourceRuntime::new(ConnectorConfig::default()).unwrap();
    assert!(rt.metrics().healthy);
}

#[test]
fn test_route_poll() {
    let mut stub = StubSource {
        producer_topics: vec!["/a".to_string()],
        polls: vec![],
        poll_index: 0,
        commits: Vec::new(),
        shutdowns: 0,
    };
    let mut config = ConnectorConfig::default();
    config.processing.poll_interval_ms = 75;
    let mut rt = SourceRuntime::new(config).unwrap();
    rt.initialize(&mut stub).unwrap();
    rt.start(&mut stub).unwrap();

    // an empty batch asks for the poll-interval sleep
    match rt.route_poll(Vec::new()).unwrap() {
        PollAction::Sleep { ms } => assert_eq!(ms, 75),
        PollAction::Publish { .. } => panic!("expected a sleep action"),
    }

    // a routable batch is returned as-is, with position-by-index offsets
    let polled = vec![
        SourceRecord::new("/a".to_string(), b"x".to_vec()),
        SourceRecord::new("/a".to_string(), b"y".to_vec()),
    ];
    match rt.route_poll(polled).unwrap() {
        PollAction::Publish { records, offsets } => {
            assert_eq!(records.len(), 2);
            assert_eq!(records[0].payload, b"x");
            assert_eq!(records[1].payload, b"y");
            assert_eq!(offsets[0].position, 0);
            assert_eq!(offsets[1].position, 1);
        },
        PollAction::Sleep { .. } => panic!("expected a publish action"),
    }

    // an unroutable topic is fatal and starts the drain
    let bad = vec![SourceRecord::new("/nope".to_string(), b"z".to_vec())];
    let err = rt.route_poll(bad).unwrap_err();
    assert_eq!(err.kind(), ErrorKind::Fatal);
    assert_eq!(rt.state(), RuntimeState::Draining);
}

#[test]
fn test_plan_producers_rejects_duplicates() {
    let mut stub = StubSource {
        producer_topics: vec!["/a".to_string()],
        polls: vec![],
        poll_index: 0,
        commits: Vec::new(),
        shutdowns: 0,
    };
    let mut rt = SourceRuntime::new(ConnectorConfig::default()).unwrap();
    rt.initialize(&mut stub).unwrap();
    let dup = vec![
        ProducerConfig { topic: "/a".to_string(), partitions: 0, reliable_dispatch: false },
        ProducerConfig { topic: "/a".to_string(), partitions: 3, reliable_dispatch: true },
    ];
    let err = rt.plan_producers(dup).unwrap_err();
    assert_eq!(err.kind(), ErrorKind::Config);
    assert_eq!(rt.state(), RuntimeState::Stopped);
}

#[test]
fn test_plan_producers_keeps_declared_settings() {
    let mut stub = StubSource {
        producer_topics: vec![],
        polls: vec![],
        poll_index: 0,
        commits: Vec::new(),
        shutdowns: 0,
    };
    let mut rt = SourceRuntime::new(ConnectorConfig::default()).unwrap();
    rt.initialize(&mut stub).unwrap();
    let configs = vec![ProducerConfig {
        topic: "/ns/events".to_string(),
        partitions: 4,
        reliable_dispatch: true,
    }];
    let specs = rt.plan_producers(configs).unwrap();
    assert_eq!(specs.len(), 1);
    assert_eq!(specs[0].topic, "/ns/events");
    assert_eq!(specs[0].partitions, 4);
    assert!(specs[0].reliable_dispatch);
    assert_eq!(specs[0].producer_name, "default-connector--ns-events");
}

#[test]
fn test_install_consumers_rejects_zero_override() {
    let mut stub = StubSink::new(vec![], vec![None]);
    let mut rt = SinkRuntime::new(ConnectorConfig::default()).unwrap();
    rt.initialize(&mut stub).unwrap();
    let configs = vec![ConsumerConfig {
        topic: "/t1".to_string(),
        subscription: "s".to_string(),
        consumer_name: "c".to_string(),
        subscription_type: SubscriptionType::Exclusive,
        batch_size: Some(0),
        batch_timeout_ms: None,
    }];
    let err = rt.install_consumers(configs).unwrap_err();
    assert_eq!(err.kind(), ErrorKind::Config);
    assert_eq!(rt.state(), RuntimeState::Stopped);
}

#[test]
fn test_from_json_always_builds() {
    let v = serde_json::Value::from(7);
    let record = danube_connect::message::SourceRecord::from_json("/t".to_string(), &v).unwrap();
    assert_eq!(record.topic, "/t");
    assert_eq!(record.payload, b"7");
}

#[test]
fn test_invalid_config_rejected_by_new() {
    let mut config = ConnectorConfig::default();
    config.processing.batch_size = 0;
    let err = SinkRuntime::new(config).unwrap_err();
    assert_eq!(err.kind(), ErrorKind::Config);
    assert_eq!(err.exit_code(), 3);
}
