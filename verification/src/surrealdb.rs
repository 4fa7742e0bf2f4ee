//! Configuration surface of the document-database sink connector:
//! topic-to-table mappings with per-table batching overrides, and its
//! validation rules.

use vstd::prelude::*;
use crate::config::ConnectorConfig;
use crate::error::{ConnectorError, ErrorKind};
use crate::message::SchemaType;

verus! {

/// Mapping from one broker topic to one database table.
#[derive(Debug, Clone)]
pub struct TopicMapping {
    /// Broker topic to consume, in `/namespace/name` form.
    pub topic: String,
    /// Subscription name for this topic.
    pub subscription: String,
    /// Table to insert into.
    pub table_name: String,
    /// Include broker metadata (topic, offset, timestamp) in each row.
    pub include_danube_metadata: bool,
    /// Per-topic batch size override.
    pub batch_size: Option<usize>,
    /// Per-topic flush interval override, in milliseconds.
    pub flush_interval_ms: Option<u64>,
    /// Declared schema of this topic's payloads.
    pub schema_type: SchemaType,
}

/// Connector-specific configuration: the database connection and the
/// topic mappings.
#[derive(Debug, Clone)]
pub struct SurrealDBConfig {
    /// Database connection URL (required, non-empty).
    pub url: String,
    /// Database namespace (required, non-empty).
    pub namespace: String,
    /// Database name (required, non-empty).
    pub database: String,
    /// Optional user name.
    pub username: Option<String>,
    /// Optional password.
    pub password: Option<String>,
    /// Connection timeout, in seconds.
    pub connection_timeout_secs: u64,
    /// Request timeout, in seconds.
    pub request_timeout_secs: u64,
    /// Topic mappings; at least one is required.
    pub topic_mappings: Vec<TopicMapping>,
    /// Global batch size.
    pub batch_size: usize,
    /// Global flush interval, in milliseconds.
    pub flush_interval_ms: u64,
}

/// The default connection timeout, in seconds.
pub fn default_connection_timeout() -> (r: u64)
    ensures
        r == 30,
{
    30
}

/// The default request timeout, in seconds.
pub fn default_request_timeout() -> (r: u64)
    ensures
        r == 30,
{
    30
}

/// The default batch size.
pub fn default_batch_size() -> (r: usize)
    ensures
        r == 100,
{
    100
}

/// The default flush interval, in milliseconds.
pub fn default_flush_interval_ms() -> (r: u64)
    ensures
        r == 1000,
{
    1000
}

/// Broker metadata is stored by default.
pub fn default_include_metadata() -> (r: bool)
    ensures
        r == true,
{
    true
}

/// The conditions one topic mapping must meet.
pub open spec fn spec_mapping_valid(m: TopicMapping) -> bool {
    &&& m.topic@.len() > 0
    &&& m.subscription@.len() > 0
    &&& m.table_name@.len() > 0
}

/// The conditions `SurrealDBSinkConfig::validate` enforces.
pub open spec fn spec_surrealdb_valid(c: SurrealDBConfig) -> bool {
    &&& c.url@.len() > 0
    &&& c.namespace@.len() > 0
    &&& c.database@.len() > 0
    &&& c.topic_mappings@.len() > 0
    &&& forall|i: int|
        0 <= i < c.topic_mappings@.len() ==> spec_mapping_valid(#[trigger] c.topic_mappings@[i])
}

/// Unified configuration of the document-database sink connector.
#[derive(Debug, Clone)]
pub struct SurrealDBSinkConfig {
    /// Core connector configuration.
    pub core: ConnectorConfig,
    /// Connector-specific configuration.
    pub surrealdb: SurrealDBConfig,
}

impl SurrealDBSinkConfig {
    /// Accept the configuration if and only if the URL, namespace and
    /// database are non-empty, at least one mapping is present, and
    /// every mapping has a non-empty topic, subscription and table.
    pub fn validate(&self) -> (r: Result<(), ConnectorError>)
        ensures
            r is Ok <==> spec_surrealdb_valid(self.surrealdb),
            (r matches Err(e) ==> e.kind == ErrorKind::Config),
    {
        if self.surrealdb.url.as_str().is_empty() {
            return Err(ConnectorError::config("SURREALDB_URL cannot be empty".to_owned()));
        }
        if self.surrealdb.namespace.as_str().is_empty() {
            return Err(ConnectorError::config("SURREALDB_NAMESPACE cannot be empty".to_owned()));
        }
        if self.surrealdb.database.as_str().is_empty() {
            return Err(ConnectorError::config("SURREALDB_DATABASE cannot be empty".to_owned()));
        }
        if self.surrealdb.topic_mappings.len() == 0 {
            return Err(ConnectorError::config(
                "At least one topic mapping is required".to_owned(),
            ));
        }
        let mut i: usize = 0;
        while i < self.surrealdb.topic_mappings.len()
            invariant
                0 <= i <= self.surrealdb.topic_mappings@.len(),
                forall|k: int|
                    0 <= k < i ==> spec_mapping_valid(#[trigger] self.surrealdb.topic_mappings@[k]),
            decreases self.surrealdb.topic_mappings@.len() - i,
        {
            let m = &self.surrealdb.topic_mappings[i];
            if m.topic.as_str().is_empty() {
                return Err(ConnectorError::config("Topic name cannot be empty".to_owned()));
            }
            if m.subscription.as_str().is_empty() {
                return Err(ConnectorError::config("Subscription name cannot be empty".to_owned()));
            }
            if m.table_name.as_str().is_empty() {
                return Err(ConnectorError::config("Table name cannot be empty".to_owned()));
            }
            i = i + 1;
        }
        Ok(())
    }
}

} // verus!
