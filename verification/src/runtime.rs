//! Runtimes managing the connector lifecycle for both directions:
//! `SinkRuntime` consumes from the broker and drives sink plugins,
//! `SourceRuntime` polls source plugins and publishes to the broker.
//!
//! Both follow the state machine `New -> Initialized -> Running ->
//! Draining -> Stopped`.  The broker I/O itself (consume, produce,
//! acknowledge) happens outside: the runtimes take received messages and
//! send outcomes as values and hand back the sends and acknowledgements
//! to perform, so that every decision they make is verified.

pub mod sink_runtime;
pub mod source_runtime;

pub use sink_runtime::BatchOutcome;
pub use sink_runtime::ConsumerConfig;
pub use sink_runtime::FlushReport;
pub use sink_runtime::RuntimeState;
pub use sink_runtime::SinkRuntime;
pub use sink_runtime::TopicBuffer;
pub use source_runtime::PollAction;
pub use source_runtime::ProducerConfig;
pub use source_runtime::ProducerSpec;
pub use source_runtime::RetryDecision;
pub use source_runtime::SourceRuntime;
