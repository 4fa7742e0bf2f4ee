//! Core framework for building connectors that move records between a
//! messaging broker and external systems.
//!
//! A *sink* consumes records from the broker, batches them per topic, and
//! hands each batch to user-written sink logic; a *source* polls user-written
//! source logic for records and publishes them to broker topics.  The runtime
//! layer in this crate handles lifecycle, buffering, retry with exponential
//! backoff, error classification, acknowledgement discipline and metrics, and
//! is verified: every public function carries a contract stating what it
//! returns or changes.

pub mod attrs;
pub mod codec;
pub mod config;
pub mod error;
pub mod json;
pub mod metrics;
pub mod message;
pub mod mqtt;
pub mod qdrant;
pub mod retry;
pub mod runtime;
pub mod surrealdb;
pub mod text;
pub mod traits;

pub use config::ConnectorConfig;
pub use config::SubscriptionType;
pub use error::ConnectorError;
pub use error::ErrorKind;
pub use message::SchemaType;
pub use message::SinkRecord;
pub use message::SourceRecord;
pub use retry::RetryConfig;
pub use runtime::ConsumerConfig;
pub use runtime::ProducerConfig;
pub use runtime::SinkRuntime;
pub use runtime::SourceRuntime;
pub use traits::Offset;
pub use traits::SinkConnector;
pub use traits::SourceConnector;

use vstd::prelude::*;

verus! {

/// Greatest number of retries a configuration may ask for.
pub const MAX_RETRIES_LIMIT: u32 = 100;

} // verus!
