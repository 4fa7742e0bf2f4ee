//! Sink runtime: dispatches received records into per-topic buffers,
//! flushes batches by size and by time, drives the sink plugin under the
//! retry strategy, and tracks the acknowledgements owed to the broker.
//!
//! Broker I/O and waiting happen outside this type: the caller hands in
//! each received record (with its arrival time), performs the
//! acknowledgements listed in the returned reports, and — when a report
//! says a batch is parked for a retry — waits the prescribed backoff and
//! calls `retry_pending`.  Every decision — when a buffer flushes, how a
//! batch is retried, what is acknowledged, how the counters move — is
//! made here and verified.

use vstd::prelude::*;
use crate::config::{ConnectorConfig, SubscriptionType, spec_config_valid};
use crate::error::{ConnectorError, ErrorKind};
use crate::message::SinkRecord;
use crate::metrics::{ConnectorMetrics, sat_add};
use crate::metrics::lemma_sat_add_assoc;
use crate::retry::{spec_backoff_ms, spec_total_backoff_ms};
use crate::traits::SinkConnector;

verus! {

/// Settings a broker consumer is created with, one per topic.
#[derive(Debug, Clone)]
pub struct ConsumerConfig {
    /// Broker topic to consume, in `/namespace/name` form.
    pub topic: String,
    /// Subscription name.
    pub subscription: String,
    /// Consumer name.
    pub consumer_name: String,
    /// Subscription mode.
    pub subscription_type: SubscriptionType,
    /// Per-topic batch size override; the global size applies when absent.
    pub batch_size: Option<usize>,
    /// Per-topic batch timeout override in milliseconds; the global
    /// timeout applies when absent.
    pub batch_timeout_ms: Option<u64>,
}

/// Lifecycle of a runtime instance.
#[derive(Debug, Clone, Copy, PartialEq, Eq, Structural)]
pub enum RuntimeState {
    /// Constructed, plugin not yet initialized.
    New,
    /// Plugin initialized, consumers not yet created.
    Initialized,
    /// Consuming and processing.
    Running,
    /// Shutting down: no new records, buffers being flushed.
    Draining,
    /// Terminal state.
    Stopped,
}

/// One per-topic buffer with its effective batching parameters.
#[derive(Debug)]
pub struct TopicBuffer {
    /// The topic this buffer belongs to.
    pub topic: String,
    /// Buffered records, in receive order.
    pub records: Vec<SinkRecord>,
    /// Arrival time of the oldest buffered record, in milliseconds;
    /// meaningful only while the buffer is non-empty.
    pub oldest_arrival_ms: u64,
    /// Effective batch size for this topic.
    pub batch_size: usize,
    /// Effective batch timeout for this topic, in milliseconds.
    pub batch_timeout_ms: u64,
}

/// How a flushed batch ended.
#[derive(Debug, Clone, Copy, PartialEq, Eq, Structural)]
pub enum BatchOutcome {
    /// The plugin accepted the batch: every record is acknowledged.
    Succeeded,
    /// The plugin classified the batch as invalid data: every record is
    /// skipped and acknowledged.
    Invalid,
    /// The plugin asked for a retry and none remains (or the flush may
    /// not park the batch): nothing is acknowledged, the records are
    /// counted as errored, and the runtime keeps running.
    Exhausted,
    /// The plugin asked for a retry and attempts remain: the batch is
    /// parked in the runtime; wait `backoff_ms`, then call
    /// `retry_pending`.
    RetryPending {
        /// The backoff to wait before the retry, in milliseconds.
        backoff_ms: u64,
    },
    /// The plugin failed fatally (or rejected its configuration): nothing
    /// is acknowledged and the runtime starts draining.
    FatalError,
}

/// What one flush did: which topic, which acknowledgements the caller
/// must now perform (in receive order), how many plugin calls were made,
/// and how the batch ended.
#[derive(Debug)]
pub struct FlushReport {
    /// Topic that was flushed.
    pub topic: String,
    /// Message identifiers to acknowledge, in receive order.
    pub acks: Vec<String>,
    /// Plugin calls made for this batch (0 for an empty buffer).
    pub attempts: u32,
    /// How the batch ended (`Succeeded` for an empty buffer).
    pub outcome: BatchOutcome,
}

/// A detached batch whose last plugin call asked for a retry, parked
/// while the caller waits out the prescribed backoff.
#[derive(Debug)]
pub struct PendingBatch {
    /// Index of the buffer the batch was detached from.
    pub buffer_index: usize,
    /// The detached records, in receive order.
    pub records: Vec<SinkRecord>,
    /// Plugin calls already made for this batch.
    pub attempts: u32,
    /// The runtime's total prescribed backoff before this batch's first
    /// retry was prescribed.
    pub backoff_base_ms: u64,
}

/// The correlation identifiers of a batch, in order.
pub open spec fn spec_message_ids(batch: Seq<SinkRecord>) -> Seq<String> {
    batch.map_values(|r: SinkRecord| r.danube_metadata.message_id)
}

/// The batch size in force for a consumer configuration: its override
/// where present, the global size otherwise.
pub open spec fn spec_effective_batch_size(c: ConsumerConfig, global: usize) -> usize {
    match c.batch_size {
        Some(s) => s,
        None => global,
    }
}

/// The batch timeout in force for a consumer configuration: its override
/// where present, the global timeout otherwise.
pub open spec fn spec_effective_batch_timeout(c: ConsumerConfig, global: u64) -> u64 {
    match c.batch_timeout_ms {
        Some(t) => t,
        None => global,
    }
}

/// The acknowledgements of a list of flush reports, concatenated in
/// report order.
pub open spec fn spec_reports_acks(reports: Seq<FlushReport>) -> Seq<String>
    decreases reports.len(),
{
    if reports.len() == 0 {
        Seq::empty()
    } else {
        spec_reports_acks(reports.drop_last()) + reports.last().acks@
    }
}

/// The errored counter after the drain's flushes: starting from `from`,
/// raised by the batch size of every buffer whose report says its only
/// attempt failed retryably.
pub open spec fn spec_reports_errored(
    reports: Seq<FlushReport>,
    buffers: Seq<TopicBuffer>,
    from: u64,
) -> u64
    decreases reports.len(),
{
    if reports.len() == 0 {
        from
    } else {
        let prev = spec_reports_errored(reports.drop_last(), buffers, from);
        if reports.last().outcome == BatchOutcome::Exhausted {
            sat_add(prev, buffers[reports.len() - 1].records@.len() as u64)
        } else {
            prev
        }
    }
}

/// Runtime for sink connectors (broker to external system).
#[derive(Debug)]
pub struct SinkRuntime {
    /// The validated configuration.
    pub config: ConnectorConfig,
    /// Lifecycle state.
    pub state: RuntimeState,
    /// One buffer per consumed topic.
    pub buffers: Vec<TopicBuffer>,
    /// Counters, histograms and the health gauge.
    pub metrics: ConnectorMetrics,
    /// Every acknowledgement issued so far, in order.
    pub acked: Vec<String>,
    /// A batch awaiting a retry, if any; while one is parked, no new
    /// records or flushes are accepted.
    pub pending: Option<PendingBatch>,
    /// Total backoff prescribed to the caller for batch retries, in
    /// milliseconds.
    pub backoff_prescribed_ms: u64,
    /// Latest event time seen, in milliseconds.
    pub now_ms: u64,
    /// How often the plugin's `shutdown` was called.
    pub shutdown_calls: u32,
}

impl SinkRuntime {
    /// Everything well-formedness asks of the buffers except their fill
    /// bound: a valid configuration, pairwise-distinct topics, positive
    /// effective batch sizes, and arrival times no later than the clock.
    pub open spec fn wf_base(&self) -> bool {
        &&& spec_config_valid(self.config)
        &&& forall|i: int, j: int|
            0 <= i < j < self.buffers@.len() ==> self.buffers@[i].topic@
                != self.buffers@[j].topic@
        &&& forall|i: int|
            0 <= i < self.buffers@.len() ==> #[trigger] self.buffers@[i].batch_size > 0
        &&& forall|i: int|
            0 <= i < self.buffers@.len() && self.buffers@[i].records@.len() > 0
                ==> #[trigger] self.buffers@[i].oldest_arrival_ms <= self.now_ms
        &&& match self.pending {
            Some(p) => {
                &&& p.buffer_index < self.buffers@.len()
                &&& p.records@.len() > 0
                &&& 1 <= p.attempts <= self.config.retry.max_retries
                &&& self.backoff_prescribed_ms == sat_add(
                    p.backoff_base_ms,
                    spec_total_backoff_ms(
                        self.config.retry.base_backoff_ms,
                        self.config.retry.max_backoff_ms,
                        p.attempts as nat,
                    ),
                )
            },
            None => true,
        }
    }

    /// Well-formedness: at rest, every buffer holds strictly fewer records
    /// than its effective batch size (a buffer that reaches the size is
    /// flushed in the same step).
    pub open spec fn wf(&self) -> bool {
        &&& self.wf_base()
        &&& forall|i: int|
            0 <= i < self.buffers@.len() ==> #[trigger] self.buffers@[i].records@.len()
                < self.buffers@[i].batch_size
    }

    /// The precondition of a flush: well-formed, except that the buffer
    /// about to be flushed may just have reached its batch size.
    pub open spec fn wf_flushable(&self, i: int) -> bool {
        &&& self.wf_base()
        &&& forall|j: int|
            0 <= j < self.buffers@.len() && j != i ==> #[trigger] self.buffers@[j].records@.len()
                < self.buffers@[j].batch_size
        &&& self.buffers@[i].records@.len() <= self.buffers@[i].batch_size
    }

    /// Whether some buffer holds the topic.
    pub open spec fn spec_has_topic(&self, t: Seq<char>) -> bool {
        exists|i: int| 0 <= i < self.buffers@.len() && self.buffers@[i].topic@ == t
    }

    /// The index of the buffer holding the topic.
    pub open spec fn spec_topic_index(&self, t: Seq<char>) -> int
        recommends
            self.spec_has_topic(t),
    {
        choose|i: int| 0 <= i < self.buffers@.len() && self.buffers@[i].topic@ == t
    }

    /// Everything one flush of buffer `i` changes — one plugin call —
    /// relating the state before (`pre`, with no batch pending) to the
    /// state after (`post`) and the report `r`.  With `park` the batch of
    /// a retryable failure is parked for `retry_pending`; without it
    /// (the drain path) such a failure is terminal.
    pub open spec fn flush_effect(
        pre: SinkRuntime,
        post: SinkRuntime,
        i: int,
        park: bool,
        r: FlushReport,
    ) -> bool {
        let batch = pre.buffers@[i].records@;
        let n = batch.len() as u64;
        let retry = pre.config.retry;
        &&& r.topic@ == pre.buffers@[i].topic@
        // the flushed buffer is emptied, everything else about the buffers stays
        &&& post.buffers@.len() == pre.buffers@.len()
        &&& post.buffers@[i].records@.len() == 0
        &&& post.buffers@[i].topic@ == pre.buffers@[i].topic@
        &&& post.buffers@[i].batch_size == pre.buffers@[i].batch_size
        &&& post.buffers@[i].batch_timeout_ms == pre.buffers@[i].batch_timeout_ms
        &&& forall|j: int| 0 <= j < pre.buffers@.len() && j != i ==> post.buffers@[j] == pre.buffers@[j]
        // frame
        &&& post.config == pre.config
        &&& post.now_ms == pre.now_ms
        &&& post.shutdown_calls == pre.shutdown_calls
        &&& post.metrics.received == pre.metrics.received
        &&& post.metrics.retried == pre.metrics.retried
        &&& post.metrics.healthy == pre.metrics.healthy
        &&& post.metrics.connector_name == pre.metrics.connector_name
        &&& post.metrics.topic == pre.metrics.topic
        &&& post.metrics.processing_ms == pre.metrics.processing_ms
        // an empty buffer is a no-op
        &&& batch.len() == 0 ==> {
            &&& post.state == pre.state
            &&& post.metrics.succeeded == pre.metrics.succeeded
            &&& post.metrics.invalid == pre.metrics.invalid
            &&& post.metrics.errored == pre.metrics.errored
            &&& post.metrics.batch_sizes == pre.metrics.batch_sizes
            &&& post.acked == pre.acked
            &&& post.pending is None
            &&& post.backoff_prescribed_ms == pre.backoff_prescribed_ms
            &&& r.acks@.len() == 0
            &&& r.attempts == 0
            &&& r.outcome == BatchOutcome::Succeeded
        }
        // a non-empty batch goes to the plugin once
        &&& batch.len() > 0 ==> {
            &&& r.attempts == 1
            &&& post.metrics.batch_sizes@ == pre.metrics.batch_sizes@.push(n)
            &&& r.outcome == BatchOutcome::Succeeded ==> {
                &&& r.acks@ == spec_message_ids(batch)
                &&& post.acked@ == pre.acked@ + spec_message_ids(batch)
                &&& post.metrics.succeeded == sat_add(pre.metrics.succeeded, n)
                &&& post.metrics.invalid == pre.metrics.invalid
                &&& post.metrics.errored == pre.metrics.errored
                &&& post.state == pre.state
                &&& post.pending is None
                &&& post.backoff_prescribed_ms == pre.backoff_prescribed_ms
            }
            &&& r.outcome == BatchOutcome::Invalid ==> {
                &&& r.acks@ == spec_message_ids(batch)
                &&& post.acked@ == pre.acked@ + spec_message_ids(batch)
                &&& post.metrics.invalid == sat_add(pre.metrics.invalid, n)
                &&& post.metrics.succeeded == pre.metrics.succeeded
                &&& post.metrics.errored == pre.metrics.errored
                &&& post.state == pre.state
                &&& post.pending is None
                &&& post.backoff_prescribed_ms == pre.backoff_prescribed_ms
            }
            &&& r.outcome == BatchOutcome::Exhausted ==> {
                &&& park ==> retry.max_retries == 0
                &&& r.acks@.len() == 0
                &&& post.acked == pre.acked
                &&& post.metrics.errored == sat_add(pre.metrics.errored, n)
                &&& post.metrics.succeeded == pre.metrics.succeeded
                &&& post.metrics.invalid == pre.metrics.invalid
                &&& post.state == pre.state
                &&& post.pending is None
                &&& post.backoff_prescribed_ms == pre.backoff_prescribed_ms
            }
            &&& (r.outcome matches BatchOutcome::RetryPending { backoff_ms } ==> {
                &&& park
                &&& retry.max_retries >= 1
                &&& backoff_ms == spec_backoff_ms(retry.base_backoff_ms, retry.max_backoff_ms, 1)
                &&& post.backoff_prescribed_ms == sat_add(pre.backoff_prescribed_ms, backoff_ms)
                &&& (post.pending matches Some(p) && p.buffer_index == i && p.records@ == batch
                    && p.attempts == 1 && p.backoff_base_ms == pre.backoff_prescribed_ms)
                &&& r.acks@.len() == 0
                &&& post.acked == pre.acked
                &&& post.metrics.succeeded == pre.metrics.succeeded
                &&& post.metrics.invalid == pre.metrics.invalid
                &&& post.metrics.errored == pre.metrics.errored
                &&& post.state == pre.state
            })
            &&& r.outcome == BatchOutcome::FatalError ==> {
                &&& r.acks@.len() == 0
                &&& post.acked == pre.acked
                &&& post.metrics.succeeded == pre.metrics.succeeded
                &&& post.metrics.invalid == pre.metrics.invalid
                &&& post.metrics.errored == pre.metrics.errored
                &&& post.state == RuntimeState::Draining
                &&& post.pending is None
                &&& post.backoff_prescribed_ms == pre.backoff_prescribed_ms
            }
        }
    }

    /// Everything one `retry_pending` step changes — one more plugin call
    /// for the parked batch — relating the state before (`pre`, with a
    /// batch pending) to the state after (`post`) and the report `r`.
    pub open spec fn retry_effect(pre: SinkRuntime, post: SinkRuntime, r: FlushReport) -> bool {
        let p = pre.pending->Some_0;
        let batch = p.records@;
        let n = batch.len() as u64;
        let retry = pre.config.retry;
        &&& r.topic@ == pre.buffers@[p.buffer_index as int].topic@
        &&& r.attempts == p.attempts + 1
        // the buffers are untouched: the batch was detached at the flush
        &&& post.buffers == pre.buffers
        // frame
        &&& post.config == pre.config
        &&& post.now_ms == pre.now_ms
        &&& post.shutdown_calls == pre.shutdown_calls
        &&& post.metrics.received == pre.metrics.received
        &&& post.metrics.batch_sizes == pre.metrics.batch_sizes
        &&& post.metrics.healthy == pre.metrics.healthy
        &&& post.metrics.connector_name == pre.metrics.connector_name
        &&& post.metrics.topic == pre.metrics.topic
        &&& post.metrics.processing_ms == pre.metrics.processing_ms
        // this call is a retry
        &&& post.metrics.retried == sat_add(pre.metrics.retried, 1)
        &&& r.outcome == BatchOutcome::Succeeded ==> {
            &&& r.acks@ == spec_message_ids(batch)
            &&& post.acked@ == pre.acked@ + spec_message_ids(batch)
            &&& post.metrics.succeeded == sat_add(pre.metrics.succeeded, n)
            &&& post.metrics.invalid == pre.metrics.invalid
            &&& post.metrics.errored == pre.metrics.errored
            &&& post.state == pre.state
            &&& post.pending is None
            &&& post.backoff_prescribed_ms == pre.backoff_prescribed_ms
        }
        &&& r.outcome == BatchOutcome::Invalid ==> {
            &&& r.acks@ == spec_message_ids(batch)
            &&& post.acked@ == pre.acked@ + spec_message_ids(batch)
            &&& post.metrics.invalid == sat_add(pre.metrics.invalid, n)
            &&& post.metrics.succeeded == pre.metrics.succeeded
            &&& post.metrics.errored == pre.metrics.errored
            &&& post.state == pre.state
            &&& post.pending is None
            &&& post.backoff_prescribed_ms == pre.backoff_prescribed_ms
        }
        &&& r.outcome == BatchOutcome::Exhausted ==> {
            &&& r.attempts == retry.max_retries + 1
            &&& r.acks@.len() == 0
            &&& post.acked == pre.acked
            &&& post.metrics.errored == sat_add(pre.metrics.errored, n)
            &&& post.metrics.succeeded == pre.metrics.succeeded
            &&& post.metrics.invalid == pre.metrics.invalid
            &&& post.state == pre.state
            &&& post.pending is None
            &&& post.backoff_prescribed_ms == pre.backoff_prescribed_ms
        }
        &&& (r.outcome matches BatchOutcome::RetryPending { backoff_ms } ==> {
            &&& p.attempts + 1 <= retry.max_retries
            &&& backoff_ms == spec_backoff_ms(
                retry.base_backoff_ms,
                retry.max_backoff_ms,
                (p.attempts + 1) as nat,
            )
            &&& post.backoff_prescribed_ms == sat_add(pre.backoff_prescribed_ms, backoff_ms)
            &&& (post.pending matches Some(q) && q.buffer_index == p.buffer_index && q.records@
                == batch && q.attempts == p.attempts + 1 && q.backoff_base_ms == p.backoff_base_ms)
            &&& r.acks@.len() == 0
            &&& post.acked == pre.acked
            &&& post.metrics.succeeded == pre.metrics.succeeded
            &&& post.metrics.invalid == pre.metrics.invalid
            &&& post.metrics.errored == pre.metrics.errored
            &&& post.state == pre.state
        })
        &&& r.outcome == BatchOutcome::FatalError ==> {
            &&& r.acks@.len() == 0
            &&& post.acked == pre.acked
            &&& post.metrics.succeeded == pre.metrics.succeeded
            &&& post.metrics.invalid == pre.metrics.invalid
            &&& post.metrics.errored == pre.metrics.errored
            &&& post.state == RuntimeState::Draining
            &&& post.pending is None
            &&& post.backoff_prescribed_ms == pre.backoff_prescribed_ms
        }
    }

    /// A runtime for the configuration; rejected with a `Config` error
    /// if and only if the configuration is invalid.  The health gauge is
    /// raised as soon as the runtime exists; it falls when it drains.
    pub fn new(config: ConnectorConfig) -> (r: Result<SinkRuntime, ConnectorError>)
        ensures
            r is Ok <==> spec_config_valid(config),
            (r matches Ok(rt) ==> {
                &&& rt.wf()
                &&& rt.config == config
                &&& rt.state == RuntimeState::New
                &&& rt.buffers@.len() == 0
                &&& rt.metrics.received == 0
                &&& rt.metrics.succeeded == 0
                &&& rt.metrics.invalid == 0
                &&& rt.metrics.retried == 0
                &&& rt.metrics.errored == 0
                &&& rt.metrics.healthy == true
                &&& rt.acked@.len() == 0
                &&& rt.pending is None
                &&& rt.backoff_prescribed_ms == 0
                &&& rt.now_ms == 0
                &&& rt.shutdown_calls == 0
            }),
            (r matches Err(e) ==> e.kind == ErrorKind::Config),
    {
        config.validate()?;
        let mut metrics = ConnectorMetrics::new(config.connector_name.clone(), "multi-topic".to_owned());
        metrics.set_health(true);
        Ok(SinkRuntime {
            config,
            state: RuntimeState::New,
            buffers: Vec::new(),
            metrics,
            acked: Vec::new(),
            pending: None,
            backoff_prescribed_ms: 0,
            now_ms: 0,
            shutdown_calls: 0,
        })
    }

    /// Initialize the plugin: `New` to `Initialized` on success; any
    /// error is passed through and stops the runtime.
    pub fn initialize<C: SinkConnector>(&mut self, connector: &mut C) -> (r: Result<
        (),
        ConnectorError,
    >)
        requires
            old(self).wf(),
            old(self).state == RuntimeState::New,
        ensures
            final(self).wf(),
            r is Ok ==> *final(self) == (SinkRuntime {
                state: RuntimeState::Initialized,
                ..*old(self)
            }),
            r is Err ==> *final(self) == (SinkRuntime { state: RuntimeState::Stopped, ..*old(self) }),
    {
        match connector.initialize(&self.config) {
            Ok(()) => {
                self.state = RuntimeState::Initialized;
                Ok(())
            },
            Err(e) => {
                self.state = RuntimeState::Stopped;
                Err(e)
            },
        }
    }

    /// Ask the plugin for its consumer configurations and hand them to
    /// `install_consumers`: `Initialized` to `Running` on success.  A
    /// plugin failure is passed through (as `Fatal` unless it already
    /// carries a terminal kind) and stops the runtime.  The returned
    /// list is what the caller must create consumers for.
    pub fn start<C: SinkConnector>(&mut self, connector: &mut C) -> (r: Result<
        Vec<ConsumerConfig>,
        ConnectorError,
    >)
        requires
            old(self).wf(),
            old(self).state == RuntimeState::Initialized,
            old(self).pending is None,
        ensures
            final(self).wf(),
            final(self).config == old(self).config,
            final(self).acked == old(self).acked,
            final(self).metrics.received == old(self).metrics.received,
            final(self).now_ms == old(self).now_ms,
            final(self).shutdown_calls == old(self).shutdown_calls,
            (r matches Ok(configs) ==> {
                &&& final(self).state == RuntimeState::Running
                &&& final(self).metrics.healthy == true
                &&& configs@.len() > 0
                &&& final(self).buffers@.len() == configs@.len()
                &&& forall|i: int|
                    0 <= i < configs@.len() ==> {
                        &&& (#[trigger] final(self).buffers@[i]).topic@ == configs@[i].topic@
                        &&& final(self).buffers@[i].records@.len() == 0
                        &&& final(self).buffers@[i].batch_size == spec_effective_batch_size(
                            configs@[i],
                            old(self).config.processing.batch_size,
                        )
                        &&& final(self).buffers@[i].batch_timeout_ms == spec_effective_batch_timeout(
                            configs@[i],
                            old(self).config.processing.batch_timeout_ms,
                        )
                    }
            }),
            r is Err ==> final(self).state == RuntimeState::Stopped,
            (r matches Err(e) ==> e.kind == ErrorKind::Config || e.kind == ErrorKind::Fatal),
    {
        let configs = match connector.consumer_configs() {
            Ok(c) => c,
            Err(e) => {
                self.state = RuntimeState::Stopped;
                if matches!(e.kind, ErrorKind::Config) || matches!(e.kind, ErrorKind::Fatal) {
                    return Err(e);
                }
                return Err(ConnectorError::fatal("consumer configuration failed".to_owned()).with_cause(e));
            },
        };
        self.install_consumers(configs)
    }

    /// Create one empty buffer per consumer configuration, handed in as
    /// a value: `Initialized` to `Running` — returning the same list for
    /// the caller to create consumers from — exactly when the list is
    /// non-empty with pairwise-distinct topics and positive effective
    /// batch sizes; otherwise a `Config` error and `Stopped`.
    pub fn install_consumers(&mut self, configs: Vec<ConsumerConfig>) -> (r: Result<
        Vec<ConsumerConfig>,
        ConnectorError,
    >)
        requires
            old(self).wf(),
            old(self).state == RuntimeState::Initialized,
            old(self).pending is None,
        ensures
            final(self).wf(),
            final(self).config == old(self).config,
            final(self).acked == old(self).acked,
            final(self).metrics.received == old(self).metrics.received,
            final(self).now_ms == old(self).now_ms,
            final(self).shutdown_calls == old(self).shutdown_calls,
            r is Ok <==> (configs@.len() > 0 && (forall|a: int, b: int|
                0 <= a < b < configs@.len() ==> configs@[a].topic@ != configs@[b].topic@) && (
            forall|k: int|
                0 <= k < configs@.len() ==> spec_effective_batch_size(
                    #[trigger] configs@[k],
                    old(self).config.processing.batch_size,
                ) > 0)),
            (r matches Ok(ret) ==> {
                &&& ret@ == configs@
                &&& final(self).state == RuntimeState::Running
                &&& final(self).metrics.healthy == true
                &&& final(self).buffers@.len() == configs@.len()
                &&& forall|i: int|
                    0 <= i < configs@.len() ==> {
                        &&& (#[trigger] final(self).buffers@[i]).topic@ == configs@[i].topic@
                        &&& final(self).buffers@[i].records@.len() == 0
                        &&& final(self).buffers@[i].batch_size == spec_effective_batch_size(
                            configs@[i],
                            old(self).config.processing.batch_size,
                        )
                        &&& final(self).buffers@[i].batch_timeout_ms == spec_effective_batch_timeout(
                            configs@[i],
                            old(self).config.processing.batch_timeout_ms,
                        )
                    }
            }),
            r is Err ==> final(self).state == RuntimeState::Stopped,
            (r matches Err(e) ==> e.kind == ErrorKind::Config),
    {
        if configs.len() == 0 {
            self.state = RuntimeState::Stopped;
            return Err(ConnectorError::config(
                "No consumer configurations provided by connector".to_owned(),
            ));
        }
        let mut buffers: Vec<TopicBuffer> = Vec::new();
        let mut i: usize = 0;
        while i < configs.len()
            invariant
                0 <= i <= configs@.len(),
                buffers@.len() == i,
                *self == *old(self),
                old(self).wf(),
                spec_config_valid(self.config),
                forall|k: int|
                    0 <= k < i ==> {
                        &&& (#[trigger] buffers@[k]).topic@ == configs@[k].topic@
                        &&& buffers@[k].records@.len() == 0
                        &&& buffers@[k].batch_size > 0
                        &&& buffers@[k].batch_size == spec_effective_batch_size(
                            configs@[k],
                            self.config.processing.batch_size,
                        )
                        &&& buffers@[k].batch_timeout_ms == spec_effective_batch_timeout(
                            configs@[k],
                            self.config.processing.batch_timeout_ms,
                        )
                    },
                forall|a: int, b: int|
                    0 <= a < b < i ==> buffers@[a].topic@ != buffers@[b].topic@,
            decreases configs@.len() - i,
        {
            // reject a second consumer for the same topic
            let mut j: usize = 0;
            while j < buffers.len()
                invariant
                    0 <= j <= buffers@.len(),
                    i < configs@.len(),
                    buffers@.len() == i,
                    *self == *old(self),
                    old(self).wf(),
                    forall|k: int|
                        0 <= k < i ==> (#[trigger] buffers@[k]).topic@ == configs@[k].topic@,
                    forall|k: int|
                        0 <= k < j ==> (#[trigger] buffers@[k]).topic@ != configs@[i as int].topic@,
                decreases buffers@.len() - j,
            {
                if buffers[j].topic == configs[i].topic {
                    proof {
                        assert(configs@[j as int].topic@ == configs@[i as int].topic@);
                    }
                    self.state = RuntimeState::Stopped;
                    return Err(ConnectorError::config("duplicate consumer topic".to_owned()));
                }
                j = j + 1;
            }
            let batch_size = match configs[i].batch_size {
                Some(s) => s,
                None => self.config.processing.batch_size,
            };
            if batch_size == 0 {
                self.state = RuntimeState::Stopped;
                return Err(ConnectorError::config("batch_size override must be > 0".to_owned()));
            }
            let batch_timeout_ms = match configs[i].batch_timeout_ms {
                Some(t) => t,
                None => self.config.processing.batch_timeout_ms,
            };
            buffers.push(TopicBuffer {
                topic: configs[i].topic.clone(),
                records: Vec::new(),
                oldest_arrival_ms: 0,
                batch_size,
                batch_timeout_ms,
            });
            i = i + 1;
        }
        proof {
            assert forall|a: int, b: int|
                0 <= a < b < configs@.len() implies configs@[a].topic@ != configs@[b].topic@ by {
                assert(buffers@[a].topic@ == configs@[a].topic@);
                assert(buffers@[b].topic@ == configs@[b].topic@);
            }
            assert forall|k: int|
                0 <= k < configs@.len() implies spec_effective_batch_size(
                #[trigger] configs@[k],
                self.config.processing.batch_size,
            ) > 0 by {
                assert(buffers@[k].batch_size == spec_effective_batch_size(
                    configs@[k],
                    self.config.processing.batch_size,
                ));
                assert(buffers@[k].batch_size > 0);
            }
        }
        self.buffers = buffers;
        self.state = RuntimeState::Running;
        self.metrics.set_health(true);
        Ok(configs)
    }

    /// Find the buffer holding a topic.
    fn find_topic(&self, topic: &str) -> (r: Option<usize>)
        requires
            self.wf(),
        ensures
            (r matches Some(i) ==> i < self.buffers@.len() && self.buffers@[i as int].topic@
                == topic@ && i == self.spec_topic_index(topic@)),
            r is None ==> !self.spec_has_topic(topic@),
            r is Some <==> self.spec_has_topic(topic@),
    {
        let mut i: usize = 0;
        while i < self.buffers.len()
            invariant
                self.wf(),
                0 <= i <= self.buffers@.len(),
                forall|j: int| 0 <= j < i ==> (#[trigger] self.buffers@[j]).topic@ != topic@,
            decreases self.buffers@.len() - i,
        {
            if self.buffers[i].topic == topic.to_owned() {
                proof {
                    assert(self.buffers@[i as int].topic@ == topic@);
                    assert(self.spec_has_topic(topic@));
                    let w = self.spec_topic_index(topic@);
                    assert(0 <= w < self.buffers@.len() && self.buffers@[w].topic@ == topic@);
                    if w != i {
                        assert(self.buffers@[w as int].topic@ == self.buffers@[i as int].topic@);
                        assert(false);
                    }
                }
                return Some(i);
            }
            i = i + 1;
        }
        None
    }

    /// Acknowledge a batch: extend the acknowledgement log by its
    /// correlation identifiers, in receive order, and return them.
    fn ack_batch(&mut self, batch: &Vec<SinkRecord>) -> (acks: Vec<String>)
        ensures
            acks@ == spec_message_ids(batch@),
            final(self).acked@ == old(self).acked@ + spec_message_ids(batch@),
            final(self).config == old(self).config,
            final(self).state == old(self).state,
            final(self).buffers == old(self).buffers,
            final(self).metrics == old(self).metrics,
            final(self).pending == old(self).pending,
            final(self).backoff_prescribed_ms == old(self).backoff_prescribed_ms,
            final(self).now_ms == old(self).now_ms,
            final(self).shutdown_calls == old(self).shutdown_calls,
    {
        let n = batch.len();
        let mut acks: Vec<String> = Vec::new();
        let mut j: usize = 0;
        while j < n
            invariant
                0 <= j <= n,
                n == batch@.len(),
                acks@ == spec_message_ids(batch@.take(j as int)),
            decreases n - j,
        {
            acks.push(batch[j].danube_metadata.message_id.clone());
            proof {
                assert(batch@.take(j + 1) =~= batch@.take(j as int).push(batch@[j as int]));
                assert(spec_message_ids(batch@.take(j + 1)) =~= spec_message_ids(
                    batch@.take(j as int),
                ).push(batch@[j as int].danube_metadata.message_id));
            }
            j = j + 1;
        }
        proof {
            assert(batch@.take(n as int) =~= batch@);
        }
        let mut j: usize = 0;
        while j < acks.len()
            invariant
                0 <= j <= acks@.len(),
                acks@ == spec_message_ids(batch@),
                self.acked@ == old(self).acked@ + acks@.take(j as int),
                self.config == old(self).config,
                self.buffers == old(self).buffers,
                self.state == old(self).state,
                self.metrics == old(self).metrics,
                self.pending == old(self).pending,
                self.backoff_prescribed_ms == old(self).backoff_prescribed_ms,
                self.now_ms == old(self).now_ms,
                self.shutdown_calls == old(self).shutdown_calls,
            decreases acks@.len() - j,
        {
            self.acked.push(acks[j].clone());
            proof {
                assert(old(self).acked@ + acks@.take(j + 1) =~= (old(self).acked@
                    + acks@.take(j as int)).push(acks@[j as int]));
            }
            j = j + 1;
        }
        proof {
            assert(acks@.take(acks@.len() as int) =~= acks@);
        }
        acks
    }

    /// Flush buffer `i`: detach the batch and, if non-empty, hand it to
    /// the plugin once.  A retryable failure parks the batch for
    /// `retry_pending` when `park` holds and retries remain; otherwise it
    /// is terminal for the batch.
    fn flush_at<C: SinkConnector>(&mut self, connector: &mut C, i: usize, park: bool) -> (r:
        FlushReport)
        requires
            old(self).wf_flushable(i as int),
            i < old(self).buffers@.len(),
            old(self).pending is None,
        ensures
            final(self).wf(),
            SinkRuntime::flush_effect(*old(self), *final(self), i as int, park, r),
    {
        let ghost pre = *self;
        let batch = self.buffers[i].records.split_off(0);
        let topic = self.buffers[i].topic.clone();
        proof {
            assert(pre.buffers@[i as int].records@ =~= batch@);
        }
        if batch.len() == 0 {
            return FlushReport {
                topic,
                acks: Vec::new(),
                attempts: 0,
                outcome: BatchOutcome::Succeeded,
            };
        }
        let n = batch.len();
        self.metrics.record_batch_size(n as u64);
        match connector.process_batch(&batch) {
            Ok(()) => {
                let acks = self.ack_batch(&batch);
                self.metrics.add_succeeded(n as u64);
                FlushReport { topic, acks, attempts: 1, outcome: BatchOutcome::Succeeded }
            },
            Err(e) => {
                match e.kind() {
                    ErrorKind::InvalidData => {
                        let acks = self.ack_batch(&batch);
                        self.metrics.add_invalid(n as u64);
                        FlushReport { topic, acks, attempts: 1, outcome: BatchOutcome::Invalid }
                    },
                    ErrorKind::Fatal | ErrorKind::Config => {
                        self.state = RuntimeState::Draining;
                        FlushReport {
                            topic,
                            acks: Vec::new(),
                            attempts: 1,
                            outcome: BatchOutcome::FatalError,
                        }
                    },
                    ErrorKind::Retryable => {
                        if park && self.config.retry.max_retries >= 1 {
                            let backoff = self.config.retry.backoff_ms(1);
                            let base = self.backoff_prescribed_ms;
                            self.backoff_prescribed_ms = if backoff <= u64::MAX - base {
                                base + backoff
                            } else {
                                u64::MAX
                            };
                            self.pending = Some(PendingBatch {
                                buffer_index: i,
                                records: batch,
                                attempts: 1,
                                backoff_base_ms: base,
                            });
                            proof {
                                let rb = self.config.retry.base_backoff_ms;
                                let rm = self.config.retry.max_backoff_ms;
                                assert(spec_total_backoff_ms(rb, rm, 0) == 0);
                                assert(spec_total_backoff_ms(rb, rm, 1) == sat_add(
                                    0,
                                    spec_backoff_ms(rb, rm, 1),
                                ));
                            }
                            FlushReport {
                                topic,
                                acks: Vec::new(),
                                attempts: 1,
                                outcome: BatchOutcome::RetryPending { backoff_ms: backoff },
                            }
                        } else {
                            self.metrics.add_errored(n as u64);
                            FlushReport {
                                topic,
                                acks: Vec::new(),
                                attempts: 1,
                                outcome: BatchOutcome::Exhausted,
                            }
                        }
                    },
                }
            },
        }
    }

    /// Retry the parked batch: one more plugin call, after the caller has
    /// waited the prescribed backoff.  A further retryable failure parks
    /// it again while retries remain; once they are exhausted the batch
    /// is terminal and counted as errored.
    pub fn retry_pending<C: SinkConnector>(&mut self, connector: &mut C) -> (r: FlushReport)
        requires
            old(self).wf(),
            old(self).pending is Some,
        ensures
            final(self).wf(),
            SinkRuntime::retry_effect(*old(self), *final(self), r),
    {
        let p = match self.pending.take() {
            Some(p) => p,
            None => {
                proof {
                    assert(false);
                }
                return FlushReport {
                    topic: String::new(),
                    acks: Vec::new(),
                    attempts: 0,
                    outcome: BatchOutcome::Exhausted,
                };
            },
        };
        let attempt = p.attempts + 1;
        let batch = p.records;
        let n = batch.len();
        let topic = self.buffers[p.buffer_index].topic.clone();
        self.metrics.add_retried(1);
        match connector.process_batch(&batch) {
            Ok(()) => {
                let acks = self.ack_batch(&batch);
                self.metrics.add_succeeded(n as u64);
                FlushReport { topic, acks, attempts: attempt, outcome: BatchOutcome::Succeeded }
            },
            Err(e) => {
                match e.kind() {
                    ErrorKind::InvalidData => {
                        let acks = self.ack_batch(&batch);
                        self.metrics.add_invalid(n as u64);
                        FlushReport { topic, acks, attempts: attempt, outcome: BatchOutcome::Invalid }
                    },
                    ErrorKind::Fatal | ErrorKind::Config => {
                        self.state = RuntimeState::Draining;
                        FlushReport {
                            topic,
                            acks: Vec::new(),
                            attempts: attempt,
                            outcome: BatchOutcome::FatalError,
                        }
                    },
                    ErrorKind::Retryable => {
                        if attempt <= self.config.retry.max_retries {
                            let backoff = self.config.retry.backoff_ms(attempt);
                            let prior = self.backoff_prescribed_ms;
                            self.backoff_prescribed_ms = if backoff <= u64::MAX - prior {
                                prior + backoff
                            } else {
                                u64::MAX
                            };
                            proof {
                                lemma_sat_add_assoc(
                                    p.backoff_base_ms,
                                    spec_total_backoff_ms(
                                        self.config.retry.base_backoff_ms,
                                        self.config.retry.max_backoff_ms,
                                        p.attempts as nat,
                                    ),
                                    backoff,
                                );
                            }
                            self.pending = Some(PendingBatch {
                                buffer_index: p.buffer_index,
                                records: batch,
                                attempts: attempt,
                                backoff_base_ms: p.backoff_base_ms,
                            });
                            FlushReport {
                                topic,
                                acks: Vec::new(),
                                attempts: attempt,
                                outcome: BatchOutcome::RetryPending { backoff_ms: backoff },
                            }
                        } else {
                            self.metrics.add_errored(n as u64);
                            FlushReport {
                                topic,
                                acks: Vec::new(),
                                attempts: attempt,
                                outcome: BatchOutcome::Exhausted,
                            }
                        }
                    },
                }
            },
        }
    }

    /// Give the parked batch up without another plugin call — for a
    /// caller that will not wait out the backoff, such as one about to
    /// drain: the batch is terminal, counted as errored, and nothing is
    /// acknowledged.
    pub fn abandon_pending(&mut self) -> (r: FlushReport)
        requires
            old(self).wf(),
            old(self).pending is Some,
        ensures
            final(self).wf(),
            final(self).pending is None,
            r.outcome == BatchOutcome::Exhausted,
            r.attempts == old(self).pending->Some_0.attempts,
            r.topic@ == old(self).buffers@[old(self).pending->Some_0.buffer_index as int].topic@,
            r.acks@.len() == 0,
            final(self).metrics.errored == sat_add(
                old(self).metrics.errored,
                old(self).pending->Some_0.records@.len() as u64,
            ),
            *final(self) == (SinkRuntime {
                pending: None,
                metrics: final(self).metrics,
                ..*old(self)
            }),
            final(self).metrics == (ConnectorMetrics {
                errored: final(self).metrics.errored,
                ..old(self).metrics
            }),
    {
        let p = match self.pending.take() {
            Some(p) => p,
            None => {
                proof {
                    assert(false);
                }
                return FlushReport {
                    topic: String::new(),
                    acks: Vec::new(),
                    attempts: 0,
                    outcome: BatchOutcome::Exhausted,
                };
            },
        };
        let topic = self.buffers[p.buffer_index].topic.clone();
        self.metrics.add_errored(p.records.len() as u64);
        FlushReport { topic, acks: Vec::new(), attempts: p.attempts, outcome: BatchOutcome::Exhausted }
    }

    /// Flush one topic by name; `None` if no buffer holds the topic.
    pub fn flush<C: SinkConnector>(&mut self, connector: &mut C, topic: &str) -> (r: Option<
        FlushReport,
    >)
        requires
            old(self).wf(),
            old(self).pending is None,
        ensures
            final(self).wf(),
            r is Some <==> old(self).spec_has_topic(topic@),
            (r matches Some(rep) ==> SinkRuntime::flush_effect(
                *old(self),
                *final(self),
                old(self).spec_topic_index(topic@),
                true,
                rep,
            )),
            r is None ==> *final(self) == *old(self),
    {
        match self.find_topic(topic) {
            Some(i) => Some(self.flush_at(connector, i, true)),
            None => None,
        }
    }
}


impl SinkRuntime {
    /// Receive one record: count it, append it to its topic's buffer in
    /// receive order, and flush that topic when the buffer reaches its
    /// effective batch size.  The caller must acknowledge what the
    /// returned report lists; after a `RetryPending` report it must wait
    /// the backoff and call `retry_pending` before feeding more records.
    pub fn handle_message<C: SinkConnector>(
        &mut self,
        connector: &mut C,
        record: SinkRecord,
        now_ms: u64,
    ) -> (r: Option<FlushReport>)
        requires
            old(self).wf(),
            old(self).state == RuntimeState::Running,
            old(self).pending is None,
            now_ms >= old(self).now_ms,
            old(self).spec_has_topic(record.danube_metadata.topic@),
        ensures
            final(self).wf(),
            final(self).now_ms == now_ms,
            final(self).metrics.received == sat_add(old(self).metrics.received, 1),
            final(self).config == old(self).config,
            final(self).shutdown_calls == old(self).shutdown_calls,
            ({
                let i = old(self).spec_topic_index(record.danube_metadata.topic@);
                let grown = old(self).buffers@[i].records@.push(record);
                &&& final(self).buffers@.len() == old(self).buffers@.len()
                &&& forall|j: int|
                    0 <= j < old(self).buffers@.len() && j != i ==> final(self).buffers@[j]
                        == old(self).buffers@[j]
                &&& final(self).buffers@[i].topic@ == old(self).buffers@[i].topic@
                &&& final(self).buffers@[i].batch_size == old(self).buffers@[i].batch_size
                &&& final(self).buffers@[i].batch_timeout_ms == old(self).buffers@[i].batch_timeout_ms
                &&& r is None ==> {
                    &&& grown.len() < old(self).buffers@[i].batch_size
                    &&& final(self).pending is None
                    &&& final(self).buffers@[i].records@ == grown
                    &&& final(self).buffers@[i].oldest_arrival_ms == (
                        if old(self).buffers@[i].records@.len() == 0 {
                            now_ms
                        } else {
                            old(self).buffers@[i].oldest_arrival_ms
                        })
                    &&& final(self).state == RuntimeState::Running
                    &&& final(self).acked == old(self).acked
                    &&& final(self).backoff_prescribed_ms == old(self).backoff_prescribed_ms
                    &&& final(self).metrics.succeeded == old(self).metrics.succeeded
                    &&& final(self).metrics.invalid == old(self).metrics.invalid
                    &&& final(self).metrics.errored == old(self).metrics.errored
                    &&& final(self).metrics.retried == old(self).metrics.retried
                    &&& final(self).metrics.batch_sizes == old(self).metrics.batch_sizes
                    &&& final(self).metrics.healthy == old(self).metrics.healthy
                }
                &&& r matches Some(rep) ==> {
                    &&& grown.len() == old(self).buffers@[i].batch_size
                    &&& final(self).buffers@[i].records@.len() == 0
                    &&& rep.topic@ == old(self).buffers@[i].topic@
                    &&& rep.attempts == 1
                    &&& final(self).metrics.batch_sizes@ == old(self).metrics.batch_sizes@.push(
                        grown.len() as u64,
                    )
                    &&& final(self).metrics.retried == old(self).metrics.retried
                    &&& rep.outcome == BatchOutcome::Succeeded ==> {
                        &&& rep.acks@ == spec_message_ids(grown)
                        &&& final(self).acked@ == old(self).acked@ + spec_message_ids(grown)
                        &&& final(self).metrics.succeeded == sat_add(
                            old(self).metrics.succeeded,
                            grown.len() as u64,
                        )
                        &&& final(self).metrics.invalid == old(self).metrics.invalid
                        &&& final(self).metrics.errored == old(self).metrics.errored
                        &&& final(self).state == RuntimeState::Running
                        &&& final(self).pending is None
                        &&& final(self).backoff_prescribed_ms == old(self).backoff_prescribed_ms
                    }
                    &&& rep.outcome == BatchOutcome::Invalid ==> {
                        &&& rep.acks@ == spec_message_ids(grown)
                        &&& final(self).acked@ == old(self).acked@ + spec_message_ids(grown)
                        &&& final(self).metrics.invalid == sat_add(
                            old(self).metrics.invalid,
                            grown.len() as u64,
                        )
                        &&& final(self).metrics.succeeded == old(self).metrics.succeeded
                        &&& final(self).metrics.errored == old(self).metrics.errored
                        &&& final(self).state == RuntimeState::Running
                        &&& final(self).pending is None
                        &&& final(self).backoff_prescribed_ms == old(self).backoff_prescribed_ms
                    }
                    &&& rep.outcome == BatchOutcome::Exhausted ==> {
                        &&& old(self).config.retry.max_retries == 0
                        &&& rep.acks@.len() == 0
                        &&& final(self).acked == old(self).acked
                        &&& final(self).metrics.errored == sat_add(
                            old(self).metrics.errored,
                            grown.len() as u64,
                        )
                        &&& final(self).metrics.succeeded == old(self).metrics.succeeded
                        &&& final(self).metrics.invalid == old(self).metrics.invalid
                        &&& final(self).state == RuntimeState::Running
                        &&& final(self).pending is None
                        &&& final(self).backoff_prescribed_ms == old(self).backoff_prescribed_ms
                    }
                    &&& (rep.outcome matches BatchOutcome::RetryPending { backoff_ms } ==> {
                        &&& old(self).config.retry.max_retries >= 1
                        &&& backoff_ms == spec_backoff_ms(
                            old(self).config.retry.base_backoff_ms,
                            old(self).config.retry.max_backoff_ms,
                            1,
                        )
                        &&& final(self).backoff_prescribed_ms == sat_add(
                            old(self).backoff_prescribed_ms,
                            backoff_ms,
                        )
                        &&& (final(self).pending matches Some(p) && p.records@ == grown
                            && p.attempts == 1)
                        &&& rep.acks@.len() == 0
                        &&& final(self).acked == old(self).acked
                        &&& final(self).metrics.succeeded == old(self).metrics.succeeded
                        &&& final(self).metrics.invalid == old(self).metrics.invalid
                        &&& final(self).metrics.errored == old(self).metrics.errored
                        &&& final(self).state == RuntimeState::Running
                    })
                    &&& rep.outcome == BatchOutcome::FatalError ==> {
                        &&& rep.acks@.len() == 0
                        &&& final(self).acked == old(self).acked
                        &&& final(self).metrics.succeeded == old(self).metrics.succeeded
                        &&& final(self).metrics.invalid == old(self).metrics.invalid
                        &&& final(self).metrics.errored == old(self).metrics.errored
                        &&& final(self).state == RuntimeState::Draining
                        &&& final(self).pending is None
                    }
                }
            }),
    {
        let topic = record.danube_metadata.topic.clone();
        let i = match self.find_topic(topic.as_str()) {
            Some(i) => i,
            None => {
                proof {
                    assert(false);
                }
                return None;
            },
        };
        self.now_ms = now_ms;
        if self.buffers[i].records.len() == 0 {
            self.buffers[i].oldest_arrival_ms = now_ms;
        }
        self.buffers[i].records.push(record);
        self.metrics.add_received(1);
        if self.buffers[i].records.len() >= self.buffers[i].batch_size {
            Some(self.flush_at(connector, i, true))
        } else {
            None
        }
    }

    /// The time-based flusher: flush every topic whose oldest record has
    /// waited at least the topic's effective batch timeout.  Afterwards —
    /// unless a fatal outcome put the runtime into `Draining`, or a flush
    /// parked its batch for a retry (which stops the pass early) — no
    /// record in any buffer is older than its topic's timeout.
    pub fn handle_tick<C: SinkConnector>(&mut self, connector: &mut C, now_ms: u64) -> (reports:
        Vec<FlushReport>)
        requires
            old(self).wf(),
            old(self).state == RuntimeState::Running,
            old(self).pending is None,
            now_ms >= old(self).now_ms,
        ensures
            final(self).wf(),
            final(self).now_ms == now_ms,
            final(self).config == old(self).config,
            final(self).shutdown_calls == old(self).shutdown_calls,
            final(self).metrics.received == old(self).metrics.received,
            final(self).metrics.retried == old(self).metrics.retried,
            final(self).state == RuntimeState::Running || final(self).state
                == RuntimeState::Draining,
            final(self).buffers@.len() == old(self).buffers@.len(),
            forall|j: int|
                0 <= j < old(self).buffers@.len() ==> {
                    &&& (#[trigger] final(self).buffers@[j]).topic@ == old(self).buffers@[j].topic@
                    &&& final(self).buffers@[j].batch_size == old(self).buffers@[j].batch_size
                    &&& final(self).buffers@[j].batch_timeout_ms
                        == old(self).buffers@[j].batch_timeout_ms
                },
            final(self).state == RuntimeState::Running && final(self).pending is None
                ==> forall|j: int|
                0 <= j < final(self).buffers@.len()
                    ==> (#[trigger] final(self).buffers@[j]).records@.len() == 0 || now_ms
                    - final(self).buffers@[j].oldest_arrival_ms
                    < final(self).buffers@[j].batch_timeout_ms,
            final(self).state == RuntimeState::Draining ==> exists|j: int|
                0 <= j < reports@.len() && reports@[j].outcome == BatchOutcome::FatalError,
            final(self).pending is Some ==> reports@.len() > 0 && (reports@.last().outcome matches
                BatchOutcome::RetryPending { backoff_ms }),
            forall|j: int|
                0 <= j < reports@.len() ==> exists|b: int|
                    0 <= b < old(self).buffers@.len() && (#[trigger] reports@[j]).topic@
                        == old(self).buffers@[b].topic@,
            old(self).acked@.is_prefix_of(final(self).acked@),
            final(self).acked@ == old(self).acked@ + spec_reports_acks(reports@),
    {
        self.now_ms = now_ms;
        let mut reports: Vec<FlushReport> = Vec::new();
        proof {
            assert(old(self).acked@ + spec_reports_acks(reports@) =~= old(self).acked@);
        }
        let mut i: usize = 0;
        while i < self.buffers.len()
            invariant
                0 <= i <= self.buffers@.len(),
                self.wf(),
                self.state == RuntimeState::Running,
                self.now_ms == now_ms,
                self.config == old(self).config,
                self.shutdown_calls == old(self).shutdown_calls,
                self.metrics.received == old(self).metrics.received,
                self.metrics.retried == old(self).metrics.retried,
                self.buffers@.len() == old(self).buffers@.len(),
                forall|j: int|
                    0 <= j < old(self).buffers@.len() ==> {
                        &&& (#[trigger] self.buffers@[j]).topic@ == old(self).buffers@[j].topic@
                        &&& self.buffers@[j].batch_size == old(self).buffers@[j].batch_size
                        &&& self.buffers@[j].batch_timeout_ms == old(self).buffers@[j].batch_timeout_ms
                    },
                self.pending is None,
                forall|j: int|
                    0 <= j < i ==> (#[trigger] self.buffers@[j]).records@.len() == 0 || now_ms
                        - self.buffers@[j].oldest_arrival_ms < self.buffers@[j].batch_timeout_ms,
                forall|j: int|
                    0 <= j < reports@.len() ==> exists|b: int|
                        0 <= b < old(self).buffers@.len() && (#[trigger] reports@[j]).topic@
                            == old(self).buffers@[b].topic@,
                old(self).acked@.is_prefix_of(self.acked@),
                self.acked@ == old(self).acked@ + spec_reports_acks(reports@),
            decreases self.buffers@.len() - i,
        {
            let due = self.buffers[i].records.len() > 0 && now_ms
                - self.buffers[i].oldest_arrival_ms >= self.buffers[i].batch_timeout_ms;
            if due {
                let ghost before = *self;
                let rep = self.flush_at(connector, i, true);
                proof {
                    assert(before.acked@.is_prefix_of(self.acked@)) by {
                        if self.acked@ != before.acked@ {
                            assert(self.acked@.subrange(0, before.acked@.len() as int)
                                =~= before.acked@);
                        }
                    }
                    assert(self.acked@ =~= before.acked@ + rep.acks@);
                }
                let fatal = matches!(rep.outcome, BatchOutcome::FatalError);
                let parked = matches!(rep.outcome, BatchOutcome::RetryPending { .. });
                let ghost reports_pre = reports@;
                reports.push(rep);
                proof {
                    lemma_reports_acks_push(reports_pre, rep);
                    assert(reports@ =~= reports_pre.push(rep));
                    assert(self.acked@ =~= old(self).acked@ + spec_reports_acks(reports@));
                }
                if fatal || parked {
                    return reports;
                }
            }
            i = i + 1;
        }
        reports
    }

    /// Ask the runtime to stop: `Running` becomes `Draining`; any other
    /// state is kept.
    pub fn request_shutdown(&mut self)
        requires
            old(self).wf(),
        ensures
            final(self).wf(),
            *final(self) == (SinkRuntime {
                state: if old(self).state == RuntimeState::Running {
                    RuntimeState::Draining
                } else {
                    old(self).state
                },
                ..*old(self)
            }),
    {
        if matches!(self.state, RuntimeState::Running) {
            self.state = RuntimeState::Draining;
        }
    }

    /// Drain: flush every topic once, in buffer order (a failed flush
    /// does not halt the drain, and a retryable failure is terminal for
    /// its batch — the drain does not wait out backoffs), call the
    /// plugin's `shutdown` — exactly once over the runtime's lifetime —
    /// mark the runtime unhealthy and stop.  An error is the plugin's
    /// `shutdown` failure, after the flushes are done.  A parked batch
    /// must be settled first, by `retry_pending` or `abandon_pending`.
    pub fn drain<C: SinkConnector>(&mut self, connector: &mut C) -> (r: Result<
        Vec<FlushReport>,
        ConnectorError,
    >)
        requires
            old(self).wf(),
            old(self).state == RuntimeState::Running || old(self).state == RuntimeState::Draining,
            old(self).pending is None,
        ensures
            final(self).wf(),
            final(self).state == RuntimeState::Stopped,
            final(self).metrics.healthy == false,
            final(self).shutdown_calls == (if old(self).shutdown_calls == 0 {
                1u32
            } else {
                old(self).shutdown_calls
            }),
            forall|j: int|
                0 <= j < final(self).buffers@.len()
                    ==> (#[trigger] final(self).buffers@[j]).records@.len() == 0,
            final(self).buffers@.len() == old(self).buffers@.len(),
            final(self).config == old(self).config,
            final(self).metrics.received == old(self).metrics.received,
            old(self).acked@.is_prefix_of(final(self).acked@),
            final(self).metrics.retried == old(self).metrics.retried,
            (r matches Ok(reports) ==> {
                &&& final(self).acked@ == old(self).acked@ + spec_reports_acks(reports@)
                &&& reports@.len() == old(self).buffers@.len()
                &&& forall|j: int|
                    0 <= j < reports@.len() ==> (#[trigger] reports@[j]).topic@
                        == old(self).buffers@[j].topic@
                &&& forall|j: int|
                    0 <= j < reports@.len() && ((#[trigger] reports@[j]).outcome
                        == BatchOutcome::Succeeded || reports@[j].outcome == BatchOutcome::Invalid)
                        ==> reports@[j].acks@ == spec_message_ids(old(self).buffers@[j].records@)
                &&& final(self).metrics.errored == spec_reports_errored(
                    reports@,
                    old(self).buffers@,
                    old(self).metrics.errored,
                )
            }),
    {
        let mut reports: Vec<FlushReport> = Vec::new();
        proof {
            assert(old(self).acked@ + spec_reports_acks(reports@) =~= old(self).acked@);
        }
        let mut i: usize = 0;
        while i < self.buffers.len()
            invariant
                0 <= i <= self.buffers@.len(),
                self.wf(),
                self.shutdown_calls == old(self).shutdown_calls,
                self.config == old(self).config,
                self.metrics.received == old(self).metrics.received,
                self.buffers@.len() == old(self).buffers@.len(),
                self.pending is None,
                self.metrics.retried == old(self).metrics.retried,
                reports@.len() == i,
                forall|j: int|
                    0 <= j < i ==> (#[trigger] self.buffers@[j]).records@.len() == 0,
                forall|j: int|
                    i <= j < self.buffers@.len() ==> (#[trigger] self.buffers@[j])
                        == old(self).buffers@[j],
                forall|j: int|
                    0 <= j < i ==> (#[trigger] reports@[j]).topic@ == old(self).buffers@[j].topic@,
                forall|j: int|
                    0 <= j < i && ((#[trigger] reports@[j]).outcome == BatchOutcome::Succeeded
                        || reports@[j].outcome == BatchOutcome::Invalid) ==> reports@[j].acks@
                        == spec_message_ids(old(self).buffers@[j].records@),
                self.metrics.errored == spec_reports_errored(
                    reports@,
                    old(self).buffers@,
                    old(self).metrics.errored,
                ),
                old(self).acked@.is_prefix_of(self.acked@),
                self.acked@ == old(self).acked@ + spec_reports_acks(reports@),
            decreases self.buffers@.len() - i,
        {
            let ghost before = *self;
            let rep = self.flush_at(connector, i, false);
            proof {
                assert(before.acked@.is_prefix_of(self.acked@)) by {
                    if self.acked@ != before.acked@ {
                        assert(self.acked@.subrange(0, before.acked@.len() as int)
                            =~= before.acked@);
                    }
                }
                assert(self.acked@ =~= before.acked@ + rep.acks@);
            }
            let ghost reports_pre = reports@;
            reports.push(rep);
            proof {
                lemma_reports_acks_push(reports_pre, rep);
                lemma_reports_errored_push(
                    reports_pre,
                    rep,
                    old(self).buffers@,
                    old(self).metrics.errored,
                );
                assert(reports@ =~= reports_pre.push(rep));
                assert(self.acked@ =~= old(self).acked@ + spec_reports_acks(reports@));
            }
            i = i + 1;
        }
        let result = if self.shutdown_calls == 0 {
            let res = connector.shutdown();
            self.shutdown_calls = 1;
            res
        } else {
            Ok(())
        };
        self.metrics.set_health(false);
        self.state = RuntimeState::Stopped;
        match result {
            Ok(()) => Ok(reports),
            Err(e) => Err(e),
        }
    }

    /// The lifecycle state.
    pub fn state(&self) -> (s: RuntimeState)
        ensures
            s == self.state,
    {
        self.state
    }

    /// The metrics gathered so far.
    pub fn metrics(&self) -> (m: &ConnectorMetrics)
        ensures
            m == &self.metrics,
    {
        &self.metrics
    }

    /// Every acknowledgement issued so far, in order.
    pub fn acked(&self) -> (a: &Vec<String>)
        ensures
            a@ == self.acked@,
    {
        &self.acked
    }

    /// Total backoff prescribed to the caller for batch retries, in
    /// milliseconds.
    pub fn backoff_prescribed_ms(&self) -> (t: u64)
        ensures
            t == self.backoff_prescribed_ms,
    {
        self.backoff_prescribed_ms
    }

    /// How many records are buffered for a topic; `None` if no buffer
    /// holds the topic.
    pub fn buffered(&self, topic: &str) -> (r: Option<usize>)
        requires
            self.wf(),
        ensures
            r is Some <==> self.spec_has_topic(topic@),
            (r matches Some(n) ==> n == self.buffers@[self.spec_topic_index(topic@)].records@.len()),
    {
        match self.find_topic(topic) {
            Some(i) => Some(self.buffers[i].records.len()),
            None => None,
        }
    }
}

/// Appending a report appends its acknowledgements.
proof fn lemma_reports_acks_push(reports: Seq<FlushReport>, rep: FlushReport)
    ensures
        spec_reports_acks(reports.push(rep)) == spec_reports_acks(reports) + rep.acks@,
{
    assert(reports.push(rep).drop_last() =~= reports);
    assert(reports.push(rep).last() == rep);
}

/// Appending a report adds its buffer's size to the errored fold exactly
/// when its batch ended in a terminal retryable failure.
proof fn lemma_reports_errored_push(
    reports: Seq<FlushReport>,
    rep: FlushReport,
    buffers: Seq<TopicBuffer>,
    from: u64,
)
    ensures
        spec_reports_errored(reports.push(rep), buffers, from) == (if rep.outcome
            == BatchOutcome::Exhausted {
            sat_add(
                spec_reports_errored(reports, buffers, from),
                buffers[reports.len() as int].records@.len() as u64,
            )
        } else {
            spec_reports_errored(reports, buffers, from)
        }),
{
    assert(reports.push(rep).drop_last() =~= reports);
    assert(reports.push(rep).last() == rep);
}

/// Buffer size invariant: a well-formed runtime never holds more records
/// in a buffer than the topic's effective batch size, at every observable
/// point between flushes.
pub proof fn lemma_buffer_size_invariant(rt: SinkRuntime)
    requires
        rt.wf(),
    ensures
        forall|i: int|
            0 <= i < rt.buffers@.len() ==> (#[trigger] rt.buffers@[i]).records@.len()
                <= rt.buffers@[i].batch_size,
{
}

} // verus!
