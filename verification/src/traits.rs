//! The two capability contracts user-written connectors implement, and
//! the offset handed back to source plugins after publication.
//!
//! The runtimes promise nothing about what an implementation returns:
//! their own contracts state what holds for every possible outcome of
//! each call.

use vstd::prelude::*;
use crate::config::ConnectorConfig;
use crate::error::ConnectorError;
use crate::message::{SinkRecord, SourceRecord};
use crate::runtime::sink_runtime::ConsumerConfig;
use crate::runtime::source_runtime::ProducerConfig;

verus! {

/// Cursor returned to a source plugin after a record was published, so it
/// may advance its external position.
#[derive(Debug, Clone, PartialEq, Eq)]
pub struct Offset {
    /// Topic the record was published to.
    pub topic: String,
    /// Position of the record within the poll batch it came from.
    pub position: u64,
}

impl Offset {
    /// An offset for the given topic and position.
    pub fn new(topic: String, position: u64) -> (r: Offset)
        ensures
            r.topic@ == topic@,
            r.position == position,
    {
        Offset { topic, position }
    }
}

/// Sink logic: consumes batches of records drawn from broker topics and
/// writes them to an external system.
pub trait SinkConnector {
    /// Called once before any batch; must be idempotent under restart.
    fn initialize(&mut self, config: &ConnectorConfig) -> Result<(), ConnectorError>;

    /// The consumers the runtime must create, one per topic.
    fn consumer_configs(&mut self) -> Result<Vec<ConsumerConfig>, ConnectorError>;

    /// Write one non-empty batch drawn from a single topic; the runtime
    /// guarantees at-least-once delivery to this method.
    fn process_batch(&mut self, records: &Vec<SinkRecord>) -> Result<(), ConnectorError>;

    /// Flush all in-flight writes before the runtime stops.
    fn shutdown(&mut self) -> Result<(), ConnectorError>;
}

/// Source logic: polls an external system for records to publish to
/// broker topics.
pub trait SourceConnector {
    /// Called once before any poll; must be idempotent under restart.
    fn initialize(&mut self, config: &ConnectorConfig) -> Result<(), ConnectorError>;

    /// The producers the runtime must create, one per topic; publishing
    /// to any other topic is a fatal error.
    fn producer_configs(&mut self) -> Result<Vec<ProducerConfig>, ConnectorError>;

    /// The next records to publish; an empty result makes the runtime
    /// sleep for the poll interval.
    fn poll(&mut self) -> Result<Vec<SourceRecord>, ConnectorError>;

    /// Called after a poll batch was fully published, with one offset per
    /// record.
    fn commit(&mut self, offsets: Vec<Offset>) -> Result<(), ConnectorError>;

    /// Flush external cursors before the runtime stops.
    fn shutdown(&mut self) -> Result<(), ConnectorError>;
}

} // verus!
