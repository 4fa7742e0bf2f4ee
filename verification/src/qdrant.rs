//! Configuration surface of the vector-index sink connector: topic-to-
//! collection mappings with per-topic batching overrides, and its
//! validation rules.

use vstd::prelude::*;
use vstd::string::StringExecFns;
use crate::config::{ConnectorConfig, SubscriptionType, spec_config_valid};
use crate::error::{ConnectorError, ErrorKind};
use crate::text::{concat_str, lower_of, lowercase, spec_dec_str, u64_to_dec_string};

verus! {

/// Distance metric for vector similarity.
#[derive(Debug, Clone, Copy, PartialEq, Eq, Structural)]
pub enum Distance {
    /// Cosine similarity, the most common for embeddings.
    Cosine,
    /// Euclidean distance.
    Euclid,
    /// Dot product.
    Dot,
    /// Manhattan distance.
    Manhattan,
}

/// Mapping from one broker topic to one vector collection.
#[derive(Debug, Clone)]
pub struct TopicMapping {
    /// Broker topic to consume, in `/namespace/name` form.
    pub topic: String,
    /// Subscription name for this topic.
    pub subscription: String,
    /// Subscription mode.
    pub subscription_type: SubscriptionType,
    /// Target collection name.
    pub collection_name: String,
    /// Vector dimension; must match the embedding model for this topic.
    pub vector_dimension: usize,
    /// Distance metric for the collection.
    pub distance: Distance,
    /// Create the collection automatically when it does not exist.
    pub auto_create_collection: bool,
    /// Include broker metadata in the stored payload.
    pub include_danube_metadata: bool,
    /// Per-topic batch size override.
    pub batch_size: Option<usize>,
    /// Per-topic batch timeout override, in milliseconds.
    pub batch_timeout_ms: Option<u64>,
}

impl TopicMapping {
    /// The batch size in force for this topic: its override where
    /// present, the global size otherwise.
    pub fn effective_batch_size(&self, global: usize) -> (r: usize)
        ensures
            r == (match self.batch_size {
                Some(s) => s,
                None => global,
            }),
    {
        match self.batch_size {
            Some(s) => s,
            None => global,
        }
    }

    /// The batch timeout in force for this topic: its override where
    /// present, the global timeout otherwise.
    pub fn effective_batch_timeout(&self, global: u64) -> (r: u64)
        ensures
            r == (match self.batch_timeout_ms {
                Some(t) => t,
                None => global,
            }),
    {
        match self.batch_timeout_ms {
            Some(t) => t,
            None => global,
        }
    }
}

/// The default distance metric: cosine.
pub fn default_distance() -> (r: Distance)
    ensures
        r == Distance::Cosine,
{
    Distance::Cosine
}

/// The default batch size for bulk upserts.
pub fn default_batch_size() -> (r: usize)
    ensures
        r == 100,
{
    100
}

/// The default batch timeout, in milliseconds.
pub fn default_batch_timeout() -> (r: u64)
    ensures
        r == 1000,
{
    1000
}

/// Collections are created automatically by default.
pub fn default_auto_create() -> (r: bool)
    ensures
        r == true,
{
    true
}

/// Broker metadata is stored by default.
pub fn default_include_metadata() -> (r: bool)
    ensures
        r == true,
{
    true
}

/// The default operation timeout, in seconds.
pub fn default_timeout() -> (r: u64)
    ensures
        r == 30,
{
    30
}

/// The default subscription mode: exclusive.
pub fn default_subscription_type() -> (r: SubscriptionType)
    ensures
        r == SubscriptionType::Exclusive,
{
    SubscriptionType::Exclusive
}

/// Read a distance metric from its lower-cased name; any other string is
/// rejected.
pub fn parse_distance(s: &str) -> (r: Option<Distance>)
    ensures
        r == (if lower_of(s@) == "cosine"@ {
            Some(Distance::Cosine)
        } else if lower_of(s@) == "euclid"@ {
            Some(Distance::Euclid)
        } else if lower_of(s@) == "dot"@ {
            Some(Distance::Dot)
        } else if lower_of(s@) == "manhattan"@ {
            Some(Distance::Manhattan)
        } else {
            None::<Distance>
        }),
{
    let l = lowercase(s);
    if l == "cosine".to_owned() {
        Some(Distance::Cosine)
    } else if l == "euclid".to_owned() {
        Some(Distance::Euclid)
    } else if l == "dot".to_owned() {
        Some(Distance::Dot)
    } else if l == "manhattan".to_owned() {
        Some(Distance::Manhattan)
    } else {
        None
    }
}

/// Connector-specific configuration: the index endpoint, the topic
/// mappings, and global batching parameters.
#[derive(Debug, Clone)]
pub struct QdrantConfig {
    /// Index server URL (required, non-empty).
    pub url: String,
    /// Optional API key.
    pub api_key: Option<String>,
    /// Topic mappings; at least one is required.
    pub topic_mappings: Vec<TopicMapping>,
    /// Global batch size for bulk upserts (must be positive).
    pub batch_size: usize,
    /// Global batch timeout, in milliseconds.
    pub batch_timeout_ms: u64,
    /// Timeout for index operations, in seconds.
    pub timeout_secs: u64,
}

/// A validation message naming the offending mapping's index.
fn mapping_message(i: usize, what: &str) -> (r: String)
    ensures
        r@ == "Topic mapping "@ + spec_dec_str(i as nat) + what@,
{
    let mut m = concat_str("Topic mapping ", u64_to_dec_string(i as u64).as_str());
    m.append(what);
    m
}

/// The conditions one topic mapping must meet.
pub open spec fn spec_mapping_valid(m: TopicMapping) -> bool {
    &&& m.topic@.len() > 0
    &&& m.collection_name@.len() > 0
    &&& m.vector_dimension > 0
    &&& m.subscription@.len() > 0
}

/// The conditions `QdrantConfig::validate` enforces.
pub open spec fn spec_qdrant_valid(c: QdrantConfig) -> bool {
    &&& c.url@.len() > 0
    &&& c.topic_mappings@.len() > 0
    &&& forall|i: int|
        0 <= i < c.topic_mappings@.len() ==> spec_mapping_valid(#[trigger] c.topic_mappings@[i])
    &&& c.batch_size > 0
}

impl QdrantConfig {
    /// Accept the configuration if and only if the URL is non-empty, at
    /// least one mapping is present, every mapping has a non-empty
    /// topic, collection and subscription and a positive vector
    /// dimension, and the global batch size is positive.
    pub fn validate(&self) -> (r: Result<(), ConnectorError>)
        ensures
            r is Ok <==> spec_qdrant_valid(*self),
            (r matches Err(e) ==> e.kind == ErrorKind::Config),
    {
        if self.url.as_str().is_empty() {
            return Err(ConnectorError::config("Qdrant URL cannot be empty".to_owned()));
        }
        if self.topic_mappings.len() == 0 {
            return Err(ConnectorError::config(
                "At least one topic mapping is required".to_owned(),
            ));
        }
        let mut i: usize = 0;
        while i < self.topic_mappings.len()
            invariant
                0 <= i <= self.topic_mappings@.len(),
                forall|k: int| 0 <= k < i ==> spec_mapping_valid(#[trigger] self.topic_mappings@[k]),
            decreases self.topic_mappings@.len() - i,
        {
            let m = &self.topic_mappings[i];
            if m.topic.as_str().is_empty() {
                return Err(ConnectorError::config(mapping_message(i, " has empty topic")));
            }
            if m.collection_name.as_str().is_empty() {
                return Err(ConnectorError::config(mapping_message(i, " has empty collection name")));
            }
            if m.vector_dimension == 0 {
                return Err(ConnectorError::config(mapping_message(i, " has zero vector dimension")));
            }
            if m.subscription.as_str().is_empty() {
                return Err(ConnectorError::config(mapping_message(i, " has empty subscription")));
            }
            i = i + 1;
        }
        if self.batch_size == 0 {
            return Err(ConnectorError::config("Batch size must be greater than 0".to_owned()));
        }
        Ok(())
    }
}

/// Unified configuration of the vector-index sink connector.
#[derive(Debug, Clone)]
pub struct QdrantSinkConfig {
    /// Core connector configuration.
    pub core: ConnectorConfig,
    /// Connector-specific configuration.
    pub qdrant: QdrantConfig,
}

impl QdrantSinkConfig {
    /// Accept if and only if both the core and the connector-specific
    /// configuration are valid.
    pub fn validate(&self) -> (r: Result<(), ConnectorError>)
        ensures
            r is Ok <==> spec_config_valid(self.core) && spec_qdrant_valid(self.qdrant),
            (r matches Err(e) ==> e.kind == ErrorKind::Config),
    {
        self.core.validate()?;
        self.qdrant.validate()?;
        Ok(())
    }
}

} // verus!
