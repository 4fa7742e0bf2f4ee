//! Logical configuration surface shared by all connectors.
//!
//! The structured document holds the broker endpoint, the connector's
//! unique name, the retry strategy and the processing parameters.  A
//! configuration is immutable once `validate` has accepted it; reading the
//! document from a file or the environment is the binary's concern, not
//! this crate's.

use vstd::prelude::*;
use crate::error::{ConnectorError, ErrorKind};
use crate::MAX_RETRIES_LIMIT;
use crate::retry::RetryConfig;
use crate::text::lowercase;
use crate::text::lower_of;

verus! {

/// Subscription mode a sink consumer is created with.
#[derive(Debug, Clone, Copy, PartialEq, Eq, Structural)]
pub enum SubscriptionType {
    /// One consumer at a time owns the subscription.
    Exclusive,
    /// Several consumers share the subscription.
    Shared,
    /// A standby consumer takes over when the owner fails.
    FailOver,
}

/// Batching, polling and logging parameters.
#[derive(Debug, Clone)]
pub struct ProcessingConfig {
    /// Records per batch handed to the sink plugin (must be positive).
    pub batch_size: usize,
    /// Longest time a record may wait in a buffer before a flush, in
    /// milliseconds.
    pub batch_timeout_ms: u64,
    /// Sleep between two polls of a source plugin that returned nothing,
    /// in milliseconds.
    pub poll_interval_ms: u64,
    /// Log level requested for the binary's tracing backend.
    pub log_level: String,
}

/// Main configuration for a connector.
#[derive(Debug, Clone)]
pub struct ConnectorConfig {
    /// Broker endpoint URL (required, non-empty).
    pub danube_service_url: String,
    /// Unique connector name (required, non-empty).
    pub connector_name: String,
    /// Retry strategy for failed plugin calls and publishes.
    pub retry: RetryConfig,
    /// Batching and polling parameters.
    pub processing: ProcessingConfig,
    /// TCP port of the metrics scrape endpoint.
    pub metrics_port: u16,
}

/// The conditions `validate` enforces.
pub open spec fn spec_config_valid(c: ConnectorConfig) -> bool {
    &&& c.danube_service_url@.len() > 0
    &&& c.connector_name@.len() > 0
    &&& c.retry.max_retries <= MAX_RETRIES_LIMIT
    &&& c.processing.batch_size > 0
}

impl ConnectorConfig {
    /// Accept the configuration if and only if the service URL and the
    /// connector name are non-empty, `max_retries` does not exceed 100 and
    /// `batch_size` is positive; any violation is a `Config` error.
    pub fn validate(&self) -> (r: Result<(), ConnectorError>)
        ensures
            r is Ok <==> spec_config_valid(*self),
            r matches Err(e) ==> e.kind == ErrorKind::Config,
    {
        if self.danube_service_url.as_str().is_empty() {
            return Err(ConnectorError::config("danube_service_url cannot be empty".to_owned()));
        }
        if self.connector_name.as_str().is_empty() {
            return Err(ConnectorError::config("connector_name cannot be empty".to_owned()));
        }
        if self.retry.max_retries > MAX_RETRIES_LIMIT {
            return Err(ConnectorError::config("max_retries too high (max 100)".to_owned()));
        }
        if self.processing.batch_size == 0 {
            return Err(ConnectorError::config("batch_size must be > 0".to_owned()));
        }
        Ok(())
    }
}

impl Default for ProcessingConfig {
    /// Batches of 1000 records, one second batch timeout, 100 ms poll
    /// interval, `info` logging.
    fn default() -> (c: ProcessingConfig)
        ensures
            c.batch_size == 1000,
            c.batch_timeout_ms == 1000,
            c.poll_interval_ms == 100,
            c.log_level@ == "info"@,
    {
        ProcessingConfig {
            batch_size: 1000,
            batch_timeout_ms: 1000,
            poll_interval_ms: 100,
            log_level: "info".to_owned(),
        }
    }
}

impl Default for ConnectorConfig {
    /// A local broker endpoint, a placeholder name, the default retry
    /// strategy and processing parameters, metrics on port 9090.
    fn default() -> (c: ConnectorConfig)
        ensures
            c.danube_service_url@ == "http://localhost:6650"@,
            c.connector_name@ == "default-connector"@,
            c.retry == (RetryConfig { max_retries: 3, base_backoff_ms: 1000, max_backoff_ms: 30000 }),
            c.processing.batch_size == 1000,
            c.processing.batch_timeout_ms == 1000,
            c.processing.poll_interval_ms == 100,
            c.metrics_port == 9090,
            spec_config_valid(c),
    {
        let c = ConnectorConfig {
            danube_service_url: "http://localhost:6650".to_owned(),
            connector_name: "default-connector".to_owned(),
            retry: Default::default(),
            processing: Default::default(),
            metrics_port: 9090,
        };
        proof {
            reveal_strlit("http://localhost:6650");
            reveal_strlit("default-connector");
        }
        c
    }
}

/// Read a subscription type from its lower-cased name; any other string is
/// rejected.
pub fn parse_subscription_type(s: &str) -> (r: Option<SubscriptionType>)
    ensures
        r == (if lower_of(s@) == "exclusive"@ {
            Some(SubscriptionType::Exclusive)
        } else if lower_of(s@) == "shared"@ {
            Some(SubscriptionType::Shared)
        } else if lower_of(s@) == "failover"@ {
            Some(SubscriptionType::FailOver)
        } else {
            None::<SubscriptionType>
        }),
{
    let l = lowercase(s);
    if l == "exclusive".to_owned() {
        Some(SubscriptionType::Exclusive)
    } else if l == "shared".to_owned() {
        Some(SubscriptionType::Shared)
    } else if l == "failover".to_owned() {
        Some(SubscriptionType::FailOver)
    } else {
        None
    }
}

} // verus!
