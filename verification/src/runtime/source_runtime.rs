//! Source runtime: polls a source plugin and routes its records to
//! pre-created broker producers.
//!
//! The broker sends happen outside: `poll_once` returns what to publish —
//! the records in poll order with one offset per record — and the caller
//! reports back how publishing went.  Every decision (which producers to
//! create, whether a topic is routable, when a batch commits, how a
//! failed publish is retried) is made here and verified.

use vstd::prelude::*;
use crate::config::{ConnectorConfig, spec_config_valid};
use crate::error::{ConnectorError, ErrorKind};
use crate::message::SourceRecord;
use crate::metrics::{ConnectorMetrics, sat_add};
use crate::retry::spec_backoff_ms;
use crate::runtime::sink_runtime::RuntimeState;
use crate::text::{concat_str, replace_slash_dash, spec_replace_char};
use crate::traits::{Offset, SourceConnector};

verus! {

/// Settings a broker producer is created with.
#[derive(Debug, Clone, PartialEq, Eq)]
pub struct ProducerConfig {
    /// Broker topic, in `/namespace/name` form.
    pub topic: String,
    /// Number of partitions; 0 means non-partitioned.
    pub partitions: usize,
    /// Whether to use reliable dispatch.
    pub reliable_dispatch: bool,
}

/// One producer the caller must create: the declared settings plus the
/// name the runtime derived for it.
#[derive(Debug)]
pub struct ProducerSpec {
    /// Broker topic, in `/namespace/name` form.
    pub topic: String,
    /// Producer name: the connector name and the topic, joined with `-`,
    /// the topic's slashes replaced by dashes.
    pub producer_name: String,
    /// Number of partitions; 0 means non-partitioned.
    pub partitions: usize,
    /// Whether to use reliable dispatch.
    pub reliable_dispatch: bool,
}

/// The name a producer is created under.
pub open spec fn spec_producer_name(connector_name: Seq<char>, topic: Seq<char>) -> Seq<char> {
    connector_name + "-"@ + spec_replace_char(topic, '/', '-')
}

/// What the main loop should do next.
#[derive(Debug)]
pub enum PollAction {
    /// Nothing to publish: sleep this many milliseconds, then poll again.
    Sleep {
        /// How long to sleep, in milliseconds.
        ms: u64,
    },
    /// Publish these records, in order, each to its topic; when every
    /// send succeeded, hand the offsets to `complete_publish`.
    Publish {
        /// The polled records, in poll order.
        records: Vec<SourceRecord>,
        /// One offset per record: its topic and its index in this batch.
        offsets: Vec<Offset>,
    },
}

/// What to do after a send in a publish batch failed.
#[derive(Debug, Clone, Copy, PartialEq, Eq, Structural)]
pub enum RetryDecision {
    /// Wait this long, then publish the whole batch again.
    RetryAfter {
        /// The backoff before the retry, in milliseconds.
        backoff_ms: u64,
    },
    /// Retries are exhausted: the batch is dropped, its commit is
    /// skipped, and polling continues.
    GiveUp,
}

/// Runtime for source connectors (external system to broker).
#[derive(Debug)]
pub struct SourceRuntime {
    /// The validated configuration.
    pub config: ConnectorConfig,
    /// Lifecycle state.
    pub state: RuntimeState,
    /// Topics a producer was created for, in creation order.
    pub producer_topics: Vec<String>,
    /// Counters, histograms and the health gauge.
    pub metrics: ConnectorMetrics,
    /// Total backoff prescribed for publish retries, in milliseconds.
    pub backoff_prescribed_ms: u64,
    /// How often the plugin's `commit` was called.
    pub commit_calls: u64,
    /// How often the plugin's `shutdown` was called.
    pub shutdown_calls: u32,
}

impl SourceRuntime {
    /// Well-formedness: a valid configuration and pairwise-distinct
    /// producer topics.
    pub open spec fn wf(&self) -> bool {
        &&& spec_config_valid(self.config)
        &&& forall|i: int, j: int|
            0 <= i < j < self.producer_topics@.len() ==> self.producer_topics@[i]@
                != self.producer_topics@[j]@
    }

    /// Whether a producer was created for the topic.
    pub open spec fn spec_has_producer(&self, t: Seq<char>) -> bool {
        exists|i: int| 0 <= i < self.producer_topics@.len() && self.producer_topics@[i]@ == t
    }

    /// A runtime for the configuration; rejected with a `Config` error
    /// if and only if the configuration is invalid.  The health gauge is
    /// raised as soon as the runtime exists; it falls when it drains.
    pub fn new(config: ConnectorConfig) -> (r: Result<SourceRuntime, ConnectorError>)
        ensures
            r is Ok <==> spec_config_valid(config),
            (r matches Ok(rt) ==> {
                &&& rt.wf()
                &&& rt.config == config
                &&& rt.state == RuntimeState::New
                &&& rt.producer_topics@.len() == 0
                &&& rt.metrics.received == 0
                &&& rt.metrics.succeeded == 0
                &&& rt.metrics.invalid == 0
                &&& rt.metrics.retried == 0
                &&& rt.metrics.errored == 0
                &&& rt.metrics.healthy == true
                &&& rt.backoff_prescribed_ms == 0
                &&& rt.commit_calls == 0
                &&& rt.shutdown_calls == 0
            }),
            (r matches Err(e) ==> e.kind == ErrorKind::Config),
    {
        config.validate()?;
        let mut metrics = ConnectorMetrics::new(config.connector_name.clone(), "multi-topic".to_owned());
        metrics.set_health(true);
        Ok(SourceRuntime {
            config,
            state: RuntimeState::New,
            producer_topics: Vec::new(),
            metrics,
            backoff_prescribed_ms: 0,
            commit_calls: 0,
            shutdown_calls: 0,
        })
    }

    /// Initialize the plugin: `New` to `Initialized` on success; any
    /// error is passed through and stops the runtime.
    pub fn initialize<C: SourceConnector>(&mut self, connector: &mut C) -> (r: Result<
        (),
        ConnectorError,
    >)
        requires
            old(self).wf(),
            old(self).state == RuntimeState::New,
        ensures
            final(self).wf(),
            r is Ok ==> *final(self) == (SourceRuntime {
                state: RuntimeState::Initialized,
                ..*old(self)
            }),
            r is Err ==> *final(self) == (SourceRuntime {
                state: RuntimeState::Stopped,
                ..*old(self)
            }),
    {
        match connector.initialize(&self.config) {
            Ok(()) => {
                self.state = RuntimeState::Initialized;
                Ok(())
            },
            Err(e) => {
                self.state = RuntimeState::Stopped;
                Err(e)
            },
        }
    }

    /// Ask the plugin for its producer configurations and hand them to
    /// `plan_producers`: `Initialized` to `Running` on success.  A plugin
    /// failure is passed through (as `Fatal` unless it already carries a
    /// terminal kind) and stops the runtime.
    pub fn start<C: SourceConnector>(&mut self, connector: &mut C) -> (r: Result<
        Vec<ProducerSpec>,
        ConnectorError,
    >)
        requires
            old(self).wf(),
            old(self).state == RuntimeState::Initialized,
        ensures
            final(self).wf(),
            final(self).config == old(self).config,
            final(self).shutdown_calls == old(self).shutdown_calls,
            (r matches Ok(specs) ==> {
                &&& final(self).state == RuntimeState::Running
                &&& final(self).metrics.healthy == true
                &&& specs@.len() > 0
                &&& final(self).producer_topics@.len() == specs@.len()
                &&& forall|k: int|
                    0 <= k < specs@.len() ==> {
                        &&& (#[trigger] final(self).producer_topics@[k])@ == specs@[k].topic@
                        &&& specs@[k].producer_name@ == spec_producer_name(
                            old(self).config.connector_name@,
                            specs@[k].topic@,
                        )
                    }
            }),
            r is Err ==> final(self).state == RuntimeState::Stopped,
            (r matches Err(e) ==> e.kind == ErrorKind::Config || e.kind == ErrorKind::Fatal),
    {
        let configs = match connector.producer_configs() {
            Ok(c) => c,
            Err(e) => {
                self.state = RuntimeState::Stopped;
                if matches!(e.kind, ErrorKind::Config) || matches!(e.kind, ErrorKind::Fatal) {
                    return Err(e);
                }
                return Err(ConnectorError::fatal("producer configuration failed".to_owned()).with_cause(e));
            },
        };
        self.plan_producers(configs)
    }

    /// Build the producer plan for the declared configurations:
    /// `Initialized` to `Running` — with one producer per configuration,
    /// in order, under the derived name — exactly when the list is
    /// non-empty with pairwise-distinct topics; otherwise a `Config`
    /// error and `Stopped`.
    pub fn plan_producers(&mut self, configs: Vec<ProducerConfig>) -> (r: Result<
        Vec<ProducerSpec>,
        ConnectorError,
    >)
        requires
            old(self).wf(),
            old(self).state == RuntimeState::Initialized,
        ensures
            final(self).wf(),
            final(self).config == old(self).config,
            final(self).shutdown_calls == old(self).shutdown_calls,
            final(self).backoff_prescribed_ms == old(self).backoff_prescribed_ms,
            r is Ok <==> (configs@.len() > 0 && (forall|a: int, b: int|
                0 <= a < b < configs@.len() ==> configs@[a].topic@ != configs@[b].topic@)),
            (r matches Ok(specs) ==> {
                &&& final(self).state == RuntimeState::Running
                &&& final(self).metrics.healthy == true
                &&& specs@.len() == configs@.len()
                &&& final(self).producer_topics@.len() == configs@.len()
                &&& forall|k: int|
                    0 <= k < configs@.len() ==> (#[trigger] specs@[k]).topic@
                        == configs@[k].topic@
                &&& forall|k: int|
                    0 <= k < configs@.len() ==> (#[trigger] specs@[k]).partitions
                        == configs@[k].partitions
                &&& forall|k: int|
                    0 <= k < configs@.len() ==> (#[trigger] specs@[k]).reliable_dispatch
                        == configs@[k].reliable_dispatch
                &&& forall|k: int|
                    0 <= k < configs@.len() ==> (#[trigger] specs@[k]).producer_name@
                        == spec_producer_name(
                        old(self).config.connector_name@,
                        configs@[k].topic@,
                    )
                &&& forall|k: int|
                    0 <= k < configs@.len() ==> (#[trigger] final(self).producer_topics@[k])@
                        == configs@[k].topic@
            }),
            r is Err ==> final(self).state == RuntimeState::Stopped,
            (r matches Err(e) ==> e.kind == ErrorKind::Config),
    {
        if configs.len() == 0 {
            self.state = RuntimeState::Stopped;
            return Err(ConnectorError::config(
                "No producer configurations provided by connector".to_owned(),
            ));
        }
        let mut specs: Vec<ProducerSpec> = Vec::new();
        let mut topics: Vec<String> = Vec::new();
        let mut i: usize = 0;
        while i < configs.len()
            invariant
                0 <= i <= configs@.len(),
                specs@.len() == i,
                topics@.len() == i,
                *self == *old(self),
                old(self).wf(),
                forall|k: int| 0 <= k < i ==> (#[trigger] topics@[k])@ == configs@[k].topic@,
                forall|k: int|
                    0 <= k < i ==> (#[trigger] specs@[k]).topic@ == configs@[k].topic@,
                forall|k: int|
                    0 <= k < i ==> (#[trigger] specs@[k]).partitions == configs@[k].partitions,
                forall|k: int|
                    0 <= k < i ==> (#[trigger] specs@[k]).reliable_dispatch
                        == configs@[k].reliable_dispatch,
                forall|k: int|
                    0 <= k < i ==> (#[trigger] specs@[k]).producer_name@ == spec_producer_name(
                        self.config.connector_name@,
                        configs@[k].topic@,
                    ),
                forall|a: int, b: int| 0 <= a < b < i ==> topics@[a]@ != topics@[b]@,
            decreases configs@.len() - i,
        {
            let mut j: usize = 0;
            while j < topics.len()
                invariant
                    0 <= j <= topics@.len(),
                    i < configs@.len(),
                    topics@.len() == i,
                    *self == *old(self),
                    old(self).wf(),
                    forall|k: int| 0 <= k < i ==> (#[trigger] topics@[k])@ == configs@[k].topic@,
                    forall|k: int|
                        0 <= k < j ==> (#[trigger] topics@[k])@ != configs@[i as int].topic@,
                decreases topics@.len() - j,
            {
                if topics[j] == configs[i].topic {
                    proof {
                        assert(configs@[j as int].topic@ == configs@[i as int].topic@);
                    }
                    self.state = RuntimeState::Stopped;
                    return Err(ConnectorError::config("duplicate producer topic".to_owned()));
                }
                j = j + 1;
            }
            let suffix = replace_slash_dash(configs[i].topic.as_str());
            let mut producer_name = concat_str(self.config.connector_name.as_str(), "-");
            producer_name.append(suffix.as_str());
            topics.push(configs[i].topic.clone());
            specs.push(ProducerSpec {
                topic: configs[i].topic.clone(),
                producer_name,
                partitions: configs[i].partitions,
                reliable_dispatch: configs[i].reliable_dispatch,
            });
            i = i + 1;
        }
        proof {
            assert forall|a: int, b: int|
                0 <= a < b < configs@.len() implies configs@[a].topic@ != configs@[b].topic@ by {
                assert(topics@[a]@ == configs@[a].topic@);
                assert(topics@[b]@ == configs@[b].topic@);
            }
        }
        self.producer_topics = topics;
        self.state = RuntimeState::Running;
        self.metrics.set_health(true);
        Ok(specs)
    }

    /// Whether a producer was created for the topic.
    pub fn has_producer(&self, topic: &str) -> (r: bool)
        ensures
            r == self.spec_has_producer(topic@),
    {
        let mut i: usize = 0;
        while i < self.producer_topics.len()
            invariant
                0 <= i <= self.producer_topics@.len(),
                forall|j: int| 0 <= j < i ==> (#[trigger] self.producer_topics@[j])@ != topic@,
            decreases self.producer_topics@.len() - i,
        {
            if self.producer_topics[i] == topic.to_owned() {
                proof {
                    assert(self.producer_topics@[i as int]@ == topic@);
                }
                return true;
            }
            i = i + 1;
        }
        false
    }

    /// Route one poll result, handed in as a value.  An empty batch asks
    /// for the `poll_interval_ms` sleep and changes nothing.  A non-empty
    /// batch whose every topic has a producer becomes a publish action:
    /// the records themselves, in order, with one offset per record whose
    /// position is the record's index.  A batch with an unroutable topic
    /// is a `Fatal` error and the runtime starts draining.
    pub fn route_poll(&mut self, polled: Vec<SourceRecord>) -> (r: Result<
        PollAction,
        ConnectorError,
    >)
        requires
            old(self).wf(),
            old(self).state == RuntimeState::Running,
        ensures
            final(self).wf(),
            final(self).config == old(self).config,
            final(self).producer_topics == old(self).producer_topics,
            final(self).shutdown_calls == old(self).shutdown_calls,
            final(self).commit_calls == old(self).commit_calls,
            final(self).backoff_prescribed_ms == old(self).backoff_prescribed_ms,
            final(self).metrics.succeeded == old(self).metrics.succeeded,
            final(self).metrics.retried == old(self).metrics.retried,
            final(self).metrics.errored == old(self).metrics.errored,
            polled@.len() == 0 ==> (r matches Ok(a) && a matches PollAction::Sleep { ms }
                && ms == old(self).config.processing.poll_interval_ms),
            (polled@.len() > 0 && (forall|m: int|
                0 <= m < polled@.len() ==> old(self).spec_has_producer(
                    (#[trigger] polled@[m]).topic@,
                ))) ==> (r matches Ok(a) && a matches PollAction::Publish { records, offsets }
                && records@ == polled@),
            (polled@.len() > 0 && (exists|m: int|
                0 <= m < polled@.len() && !old(self).spec_has_producer(
                    (#[trigger] polled@[m]).topic@,
                ))) ==> r is Err,
            (r matches Ok(a) ==> final(self).state == RuntimeState::Running),
            (r matches Ok(a) ==> match a {
                PollAction::Sleep { ms } => {
                    &&& ms == old(self).config.processing.poll_interval_ms
                    &&& final(self).metrics == old(self).metrics
                },
                PollAction::Publish { records, offsets } => {
                    &&& records@.len() > 0
                    &&& offsets@.len() == records@.len()
                    &&& forall|k: int|
                        0 <= k < records@.len() ==> {
                            &&& (#[trigger] offsets@[k]).topic@ == records@[k].topic@
                            &&& offsets@[k].position == k
                        }
                    &&& forall|k: int|
                        0 <= k < records@.len() ==> old(self).spec_has_producer(
                            (#[trigger] records@[k]).topic@,
                        )
                    &&& final(self).metrics.batch_sizes@ == old(self).metrics.batch_sizes@.push(
                        records@.len() as u64,
                    )
                },
            }),
            (r matches Err(e) ==> {
                &&& final(self).state == RuntimeState::Draining
                &&& e.kind == ErrorKind::Fatal
                &&& final(self).metrics == old(self).metrics
            }),
    {
        if polled.len() == 0 {
            return Ok(PollAction::Sleep { ms: self.config.processing.poll_interval_ms });
        }
        let mut offsets: Vec<Offset> = Vec::new();
        let mut k: usize = 0;
        while k < polled.len()
            invariant
                0 <= k <= polled@.len(),
                offsets@.len() == k,
                *self == *old(self),
                old(self).wf(),
                old(self).state == RuntimeState::Running,
                forall|m: int|
                    0 <= m < k ==> {
                        &&& (#[trigger] offsets@[m]).topic@ == polled@[m].topic@
                        &&& offsets@[m].position == m
                    },
                forall|m: int|
                    0 <= m < k ==> old(self).spec_has_producer((#[trigger] polled@[m]).topic@),
            decreases polled@.len() - k,
        {
            if !self.has_producer(polled[k].topic.as_str()) {
                self.state = RuntimeState::Draining;
                return Err(ConnectorError::fatal(
                    "No producer found for topic; ensure producer_configs() includes it".to_owned(),
                ));
            }
            offsets.push(Offset::new(polled[k].topic.clone(), k as u64));
            k = k + 1;
        }
        self.metrics.record_batch_size(polled.len() as u64);
        Ok(PollAction::Publish { records: polled, offsets })
    }

    /// One poll of the plugin.  A `Retryable` poll error is counted and
    /// answered with a one-second sleep; a `Fatal` (or `Config`) one puts
    /// the runtime into `Draining` and is passed through.  Everything
    /// else is `route_poll` of the records the plugin returned.
    pub fn poll_once<C: SourceConnector>(&mut self, connector: &mut C) -> (r: Result<
        PollAction,
        ConnectorError,
    >)
        requires
            old(self).wf(),
            old(self).state == RuntimeState::Running,
        ensures
            final(self).wf(),
            final(self).config == old(self).config,
            final(self).producer_topics == old(self).producer_topics,
            final(self).shutdown_calls == old(self).shutdown_calls,
            final(self).commit_calls == old(self).commit_calls,
            final(self).backoff_prescribed_ms == old(self).backoff_prescribed_ms,
            final(self).metrics.succeeded == old(self).metrics.succeeded,
            final(self).metrics.retried == old(self).metrics.retried,
            (r matches Ok(a) ==> final(self).state == RuntimeState::Running),
            (r matches Ok(a) ==> match a {
                PollAction::Sleep { ms } => (ms == old(self).config.processing.poll_interval_ms
                    && final(self).metrics == old(self).metrics) || (ms == 1000
                    && final(self).metrics.errored == sat_add(old(self).metrics.errored, 1)
                    && final(self).metrics.batch_sizes == old(self).metrics.batch_sizes),
                PollAction::Publish { records, offsets } => {
                    &&& records@.len() > 0
                    &&& offsets@.len() == records@.len()
                    &&& forall|k: int|
                        0 <= k < records@.len() ==> {
                            &&& (#[trigger] offsets@[k]).topic@ == records@[k].topic@
                            &&& offsets@[k].position == k
                        }
                    &&& forall|k: int|
                        0 <= k < records@.len() ==> old(self).spec_has_producer(
                            (#[trigger] records@[k]).topic@,
                        )
                    &&& final(self).metrics.errored == old(self).metrics.errored
                    &&& final(self).metrics.batch_sizes@ == old(self).metrics.batch_sizes@.push(
                        records@.len() as u64,
                    )
                },
            }),
            (r matches Err(e) ==> {
                &&& final(self).state == RuntimeState::Draining
                &&& (e.kind == ErrorKind::Fatal || e.kind == ErrorKind::Config)
            }),
    {
        match connector.poll() {
            Ok(polled) => self.route_poll(polled),
            Err(e) => {
                match e.kind() {
                    ErrorKind::Retryable | ErrorKind::InvalidData => {
                        self.metrics.add_errored(1);
                        Ok(PollAction::Sleep { ms: 1000 })
                    },
                    ErrorKind::Fatal | ErrorKind::Config => {
                        self.state = RuntimeState::Draining;
                        Err(e)
                    },
                }
            },
        }
    }

    /// Record that every send of a publish batch succeeded: count the
    /// records, raise the commit ledger and hand the offsets to the
    /// plugin's `commit`, whose outcome is passed through; polling
    /// continues either way.
    pub fn complete_publish<C: SourceConnector>(
        &mut self,
        connector: &mut C,
        offsets: Vec<Offset>,
    ) -> (r: Result<(), ConnectorError>)
        requires
            old(self).wf(),
            old(self).state == RuntimeState::Running,
        ensures
            final(self).wf(),
            final(self).metrics.succeeded == sat_add(
                old(self).metrics.succeeded,
                offsets@.len() as u64,
            ),
            final(self).commit_calls == sat_add(old(self).commit_calls, 1),
            final(self).metrics.errored == old(self).metrics.errored,
            final(self).metrics.retried == old(self).metrics.retried,
            final(self).state == old(self).state,
            final(self).config == old(self).config,
            final(self).producer_topics == old(self).producer_topics,
            final(self).backoff_prescribed_ms == old(self).backoff_prescribed_ms,
            final(self).shutdown_calls == old(self).shutdown_calls,
    {
        self.metrics.add_succeeded(offsets.len() as u64);
        self.commit_calls = if self.commit_calls < u64::MAX {
            self.commit_calls + 1
        } else {
            u64::MAX
        };
        connector.commit(offsets)
    }

    /// Decide what to do after a send of a publish batch failed on the
    /// given attempt (1-indexed): retry the whole batch after the
    /// backoff, while attempts remain; otherwise give the batch up — its
    /// records are counted as errored and its commit is skipped.
    pub fn publish_failed(&mut self, attempt: u32, batch_len: usize) -> (d: RetryDecision)
        requires
            old(self).wf(),
            old(self).state == RuntimeState::Running,
            attempt >= 1,
        ensures
            final(self).wf(),
            final(self).config == old(self).config,
            final(self).state == old(self).state,
            final(self).producer_topics == old(self).producer_topics,
            final(self).shutdown_calls == old(self).shutdown_calls,
            final(self).commit_calls == old(self).commit_calls,
            final(self).metrics.succeeded == old(self).metrics.succeeded,
            attempt <= old(self).config.retry.max_retries ==> {
                &&& d == (RetryDecision::RetryAfter {
                    backoff_ms: spec_backoff_ms(
                        old(self).config.retry.base_backoff_ms,
                        old(self).config.retry.max_backoff_ms,
                        attempt as nat,
                    ),
                })
                &&& final(self).metrics.retried == sat_add(old(self).metrics.retried, 1)
                &&& final(self).metrics.errored == old(self).metrics.errored
                &&& final(self).backoff_prescribed_ms == sat_add(
                    old(self).backoff_prescribed_ms,
                    spec_backoff_ms(
                        old(self).config.retry.base_backoff_ms,
                        old(self).config.retry.max_backoff_ms,
                        attempt as nat,
                    ),
                )
            },
            attempt > old(self).config.retry.max_retries ==> {
                &&& d == RetryDecision::GiveUp
                &&& final(self).metrics.errored == sat_add(
                    old(self).metrics.errored,
                    batch_len as u64,
                )
                &&& final(self).metrics.retried == old(self).metrics.retried
                &&& final(self).backoff_prescribed_ms == old(self).backoff_prescribed_ms
            },
    {
        if attempt <= self.config.retry.max_retries {
            let b = self.config.retry.backoff_ms(attempt);
            self.metrics.add_retried(1);
            self.backoff_prescribed_ms = if b <= u64::MAX - self.backoff_prescribed_ms {
                self.backoff_prescribed_ms + b
            } else {
                u64::MAX
            };
            RetryDecision::RetryAfter { backoff_ms: b }
        } else {
            self.metrics.add_errored(batch_len as u64);
            RetryDecision::GiveUp
        }
    }

    /// Ask the runtime to stop: `Running` becomes `Draining`; any other
    /// state is kept.
    pub fn request_shutdown(&mut self)
        requires
            old(self).wf(),
        ensures
            final(self).wf(),
            *final(self) == (SourceRuntime {
                state: if old(self).state == RuntimeState::Running {
                    RuntimeState::Draining
                } else {
                    old(self).state
                },
                ..*old(self)
            }),
    {
        if matches!(self.state, RuntimeState::Running) {
            self.state = RuntimeState::Draining;
        }
    }

    /// Stop: call the plugin's `shutdown` — exactly once over the
    /// runtime's lifetime — mark the runtime unhealthy and stop.  An
    /// error is the plugin's `shutdown` failure.
    pub fn drain<C: SourceConnector>(&mut self, connector: &mut C) -> (r: Result<
        (),
        ConnectorError,
    >)
        requires
            old(self).wf(),
            old(self).state == RuntimeState::Running || old(self).state == RuntimeState::Draining,
        ensures
            final(self).wf(),
            final(self).state == RuntimeState::Stopped,
            final(self).metrics.healthy == false,
            final(self).shutdown_calls == (if old(self).shutdown_calls == 0 {
                1u32
            } else {
                old(self).shutdown_calls
            }),
            final(self).config == old(self).config,
            final(self).producer_topics == old(self).producer_topics,
            final(self).metrics.succeeded == old(self).metrics.succeeded,
            final(self).metrics.errored == old(self).metrics.errored,
    {
        let result = if self.shutdown_calls == 0 {
            let res = connector.shutdown();
            self.shutdown_calls = 1;
            res
        } else {
            Ok(())
        };
        self.metrics.set_health(false);
        self.state = RuntimeState::Stopped;
        result
    }

    /// The lifecycle state.
    pub fn state(&self) -> (s: RuntimeState)
        ensures
            s == self.state,
    {
        self.state
    }

    /// The metrics gathered so far.
    pub fn metrics(&self) -> (m: &ConnectorMetrics)
        ensures
            m == &self.metrics,
    {
        &self.metrics
    }

    /// Total backoff prescribed for publish retries, in milliseconds.
    pub fn backoff_prescribed_ms(&self) -> (t: u64)
        ensures
            t == self.backoff_prescribed_ms,
    {
        self.backoff_prescribed_ms
    }
}

} // verus!
