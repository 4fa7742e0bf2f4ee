//! The record model: `SinkRecord` (broker to plugin) and `SourceRecord`
//! (plugin to broker), with typed payload accessors.
//!
//! Accessors interpret the payload according to a declared schema: JSON,
//! UTF-8 text, an 8-byte big-endian signed integer, or raw bytes exposed
//! as base64.  Each accessor fails with `InvalidData` exactly when the
//! bytes do not satisfy the schema.

use vstd::prelude::*;
use crate::attrs::AttrMap;
use crate::codec::{base64_encode, base64_of, i64_from_be_bytes, spec_i64_from_be};
use crate::error::{ConnectorError, ErrorKind};
use crate::json::{json_from_slice, json_i64, json_map_insert, json_map_new, json_object,
    json_string, json_to_vec, json_u64, json_wf};
use crate::runtime::ProducerConfig;
use crate::text::{concat_str, spec_dec_str, string_to_bytes, u64_to_dec_string, utf8_to_str};
use vstd::utf8::{decode_utf8, encode_utf8, valid_utf8};

verus! {

/// Declared schema of a topic's payloads.
#[derive(Debug, Clone, Copy, PartialEq, Eq, Structural)]
pub enum SchemaType {
    /// The payload is a JSON document.
    Json,
    /// The payload is UTF-8 text.
    Utf8,
    /// The payload is an 8-byte big-endian signed integer.
    Int64,
    /// The payload is an opaque byte sequence.
    Bytes,
}

impl Default for SchemaType {
    /// JSON, the most common schema.
    fn default() -> (s: SchemaType)
        ensures
            s == SchemaType::Json,
    {
        SchemaType::Json
    }
}

/// Broker metadata carried on a sink record for observability and
/// acknowledgement correlation.
#[derive(Debug)]
pub struct DanubeMetadata {
    /// Topic the record was consumed from.
    pub topic: String,
    /// Offset of the record within its topic.
    pub offset: u64,
    /// Publish timestamp, microseconds since the epoch.
    pub publish_time: u64,
    /// Formatted correlation identifier for logging and acknowledgement.
    pub message_id: String,
    /// Name of the producer that published the record.
    pub producer_name: String,
}

/// The correlation identifier: topic, producer and offset in one string.
pub open spec fn spec_message_id(topic: Seq<char>, producer_id: u64, offset: u64) -> Seq<char> {
    "topic:"@ + topic + "/producer:"@ + spec_dec_str(producer_id as nat) + "/offset:"@
        + spec_dec_str(offset as nat)
}

/// Build the correlation identifier for a message.
pub fn format_message_id(topic: &str, producer_id: u64, offset: u64) -> (r: String)
    ensures
        r@ == spec_message_id(topic@, producer_id, offset),
{
    let mut s = concat_str("topic:", topic);
    s.append("/producer:");
    s.append(u64_to_dec_string(producer_id).as_str());
    s.append("/offset:");
    s.append(u64_to_dec_string(offset).as_str());
    s
}

/// Record handed to sink plugins (broker to external system).
#[derive(Debug)]
pub struct SinkRecord {
    /// The message payload, raw bytes.
    pub payload: Vec<u8>,
    /// User-defined attributes set by the producer.
    pub attributes: AttrMap,
    /// Broker metadata for observability and acknowledgement.
    pub danube_metadata: DanubeMetadata,
    /// Topic partition, if the topic is partitioned.
    pub partition: Option<String>,
}

impl SinkRecord {
    /// Assemble a record from the parts of a received broker message; the
    /// correlation identifier is derived from topic, producer and offset.
    pub fn from_parts(
        topic: String,
        producer_id: u64,
        offset: u64,
        publish_time: u64,
        producer_name: String,
        payload: Vec<u8>,
        attributes: AttrMap,
        partition: Option<String>,
    ) -> (r: SinkRecord)
        ensures
            r.payload@ == payload@,
            r.attributes == attributes,
            r.danube_metadata.topic@ == topic@,
            r.danube_metadata.offset == offset,
            r.danube_metadata.publish_time == publish_time,
            r.danube_metadata.producer_name@ == producer_name@,
            r.danube_metadata.message_id@ == spec_message_id(topic@, producer_id, offset),
            r.partition == partition,
    {
        let message_id = format_message_id(topic.as_str(), producer_id, offset);
        SinkRecord {
            payload,
            attributes,
            danube_metadata: DanubeMetadata {
                topic,
                offset,
                publish_time,
                message_id,
                producer_name,
            },
            partition,
        }
    }

    /// The payload bytes.
    pub fn payload(&self) -> (r: &[u8])
        ensures
            r@ == self.payload@,
    {
        self.payload.as_slice()
    }

    /// The payload size in bytes.
    pub fn payload_size(&self) -> (n: usize)
        ensures
            n == self.payload@.len(),
    {
        self.payload.len()
    }

    /// The payload as UTF-8 text; `InvalidData` exactly when the bytes are
    /// not valid UTF-8.
    pub fn payload_str(&self) -> (r: Result<&str, ConnectorError>)
        ensures
            r is Ok <==> valid_utf8(self.payload@),
            (r matches Ok(s) ==> s@ == decode_utf8(self.payload@)),
            (r matches Err(e) ==> e.kind == ErrorKind::InvalidData),
    {
        match utf8_to_str(self.payload.as_slice()) {
            Some(s) => Ok(s),
            None => Err(ConnectorError::invalid_data("Payload is not valid UTF-8".to_owned())),
        }
    }

    /// The payload as a JSON value; `InvalidData` exactly when the bytes
    /// do not parse as JSON.
    pub fn payload_json(&self) -> (r: Result<serde_json::Value, ConnectorError>)
        ensures
            r is Ok <==> json_wf(self.payload@),
            (r matches Err(e) ==> e.kind == ErrorKind::InvalidData),
    {
        match json_from_slice(self.payload.as_slice()) {
            Some(v) => Ok(v),
            None => Err(ConnectorError::invalid_data("Failed to deserialize JSON".to_owned())),
        }
    }

    /// The payload as a big-endian signed 64-bit integer; `InvalidData`
    /// exactly when the payload is not 8 bytes long.
    pub fn payload_int64(&self) -> (r: Result<i64, ConnectorError>)
        ensures
            r is Ok <==> self.payload@.len() == 8,
            (r matches Ok(v) ==> v == spec_i64_from_be(self.payload@)),
            (r matches Err(e) ==> e.kind == ErrorKind::InvalidData),
    {
        if self.payload.len() != 8 {
            return Err(ConnectorError::invalid_data(
                "Int64 payload must be exactly 8 bytes".to_owned(),
            ));
        }
        Ok(i64_from_be_bytes(self.payload.as_slice()))
    }

    /// The payload encoded as base64 (standard alphabet, padded).
    pub fn payload_base64(&self) -> (r: String)
        ensures
            r@ == base64_of(self.payload@),
    {
        base64_encode(self.payload.as_slice())
    }

    /// The payload interpreted according to the declared schema, wrapped
    /// as a JSON value; `InvalidData` exactly when the bytes do not
    /// satisfy the schema.
    pub fn payload_deserialized(&self, schema_type: SchemaType) -> (r: Result<
        serde_json::Value,
        ConnectorError,
    >)
        ensures
            r is Ok <==> (match schema_type {
                SchemaType::Json => json_wf(self.payload@),
                SchemaType::Utf8 => valid_utf8(self.payload@),
                SchemaType::Int64 => self.payload@.len() == 8,
                SchemaType::Bytes => true,
            }),
            (r matches Err(e) ==> e.kind == ErrorKind::InvalidData),
    {
        match schema_type {
            SchemaType::Json => self.payload_json(),
            SchemaType::Utf8 => {
                let s = self.payload_str()?;
                let mut m = json_map_new();
                json_map_insert(&mut m, "data".to_owned(), json_string(s.to_owned()));
                Ok(json_object(m))
            },
            SchemaType::Int64 => {
                let v = self.payload_int64()?;
                let mut m = json_map_new();
                json_map_insert(&mut m, "value".to_owned(), json_i64(v));
                Ok(json_object(m))
            },
            SchemaType::Bytes => {
                let b64 = self.payload_base64();
                let size = self.payload_size();
                let mut m = json_map_new();
                json_map_insert(&mut m, "data".to_owned(), json_string(b64));
                json_map_insert(&mut m, "size".to_owned(), json_u64(size as u64));
                Ok(json_object(m))
            },
        }
    }

    /// The user-defined attributes.
    pub fn attributes(&self) -> (r: &AttrMap)
        ensures
            r == &self.attributes,
    {
        &self.attributes
    }

    /// The value of one attribute, if set.
    pub fn get_attribute(&self, key: &str) -> (r: Option<&str>)
        ensures
            (r matches Some(v) ==> self.attributes.spec_get(key@) == Some(v@)),
            r is None ==> self.attributes.spec_get(key@) is None,
    {
        match self.attributes.get(key) {
            Some(v) => Some(v.as_str()),
            None => None,
        }
    }

    /// Whether an attribute is set.
    pub fn has_attribute(&self, key: &str) -> (r: bool)
        ensures
            r == self.attributes.spec_contains(key@),
    {
        self.attributes.contains_key(key)
    }

    /// The topic the record was consumed from.
    pub fn topic(&self) -> (r: &str)
        ensures
            r@ == self.danube_metadata.topic@,
    {
        self.danube_metadata.topic.as_str()
    }

    /// The record's offset within its topic.
    pub fn offset(&self) -> (r: u64)
        ensures
            r == self.danube_metadata.offset,
    {
        self.danube_metadata.offset
    }

    /// The publish timestamp, microseconds since the epoch.
    pub fn publish_time(&self) -> (r: u64)
        ensures
            r == self.danube_metadata.publish_time,
    {
        self.danube_metadata.publish_time
    }

    /// The name of the producer that published the record.
    pub fn producer_name(&self) -> (r: &str)
        ensures
            r@ == self.danube_metadata.producer_name@,
    {
        self.danube_metadata.producer_name.as_str()
    }

    /// The formatted correlation identifier.
    pub fn message_id(&self) -> (r: &str)
        ensures
            r@ == self.danube_metadata.message_id@,
    {
        self.danube_metadata.message_id.as_str()
    }
}

/// Record handed back by source plugins (external system to broker).
#[derive(Debug)]
pub struct SourceRecord {
    /// The topic to publish to, in `/namespace/name` form.
    pub topic: String,
    /// The message payload.
    pub payload: Vec<u8>,
    /// Optional message attributes.
    pub attributes: AttrMap,
    /// Optional routing key for partitioned topics.
    pub key: Option<String>,
    /// Optional override of the producer settings for this record's topic.
    pub producer_config: Option<ProducerConfig>,
}

impl SourceRecord {
    /// A record with the given payload, no attributes, no key and no
    /// producer override.
    pub fn new(topic: String, payload: Vec<u8>) -> (r: SourceRecord)
        ensures
            r.topic@ == topic@,
            r.payload@ == payload@,
            r.attributes.wf(),
            r.attributes.spec_entries().len() == 0,
            r.key is None,
            r.producer_config is None,
    {
        SourceRecord {
            topic,
            payload,
            attributes: AttrMap::new(),
            key: None,
            producer_config: None,
        }
    }

    /// A record whose payload is the UTF-8 encoding of a string.
    pub fn from_string(topic: String, payload: &str) -> (r: SourceRecord)
        ensures
            r.topic@ == topic@,
            r.payload@ == encode_utf8(payload@),
            r.attributes.wf(),
            r.attributes.spec_entries().len() == 0,
            r.key is None,
            r.producer_config is None,
    {
        let bytes = string_to_bytes(payload);
        SourceRecord::new(topic, bytes)
    }

    /// A record whose payload is the JSON serialization of a value;
    /// serializing a JSON value cannot fail, so the record is always
    /// built.  The payload bytes themselves are the serializer's result.
    pub fn from_json(topic: String, data: &serde_json::Value) -> (r: Result<
        SourceRecord,
        ConnectorError,
    >)
        ensures
            r is Ok,
            (r matches Ok(rec) ==> rec.topic@ == topic@ && rec.attributes.wf()
                && rec.attributes.spec_entries().len() == 0 && rec.key is None
                && rec.producer_config is None),
    {
        match json_to_vec(data) {
            Some(payload) => Ok(SourceRecord::new(topic, payload)),
            None => {
                proof {
                    assert(false);
                }
                Err(ConnectorError::invalid_data("Failed to serialize JSON".to_owned()))
            },
        }
    }

    /// The record with one more attribute bound.
    pub fn with_attribute(self, key: String, value: String) -> (r: SourceRecord)
        requires
            self.attributes.wf(),
        ensures
            r.attributes.wf(),
            r.attributes.spec_get(key@) == Some(value@),
            forall|k2: Seq<char>|
                k2 != key@ ==> r.attributes.spec_get(k2) == self.attributes.spec_get(k2),
            r.topic@ == self.topic@,
            r.payload@ == self.payload@,
            r.key == self.key,
            r.producer_config == self.producer_config,
    {
        let mut s = self;
        s.attributes.insert(key, value);
        s
    }

    /// The record with every binding of `attrs` added, later bindings
    /// overriding earlier ones of this record.
    pub fn with_attributes(self, attrs: AttrMap) -> (r: SourceRecord)
        requires
            self.attributes.wf(),
            attrs.wf(),
        ensures
            r.attributes.wf(),
            forall|k: Seq<char>|
                r.attributes.spec_get(k) == (if attrs.spec_contains(k) {
                    attrs.spec_get(k)
                } else {
                    self.attributes.spec_get(k)
                }),
            r.topic@ == self.topic@,
            r.payload@ == self.payload@,
            r.key == self.key,
            r.producer_config == self.producer_config,
    {
        let mut s = self;
        let ghost orig = s.attributes;
        let ghost add = attrs.spec_entries();
        let n = attrs.entries().len();
        let mut i: usize = 0;
        while i < n
            invariant
                0 <= i <= add.len(),
                n == add.len(),
                add == attrs.spec_entries(),
                attrs.wf(),
                s.attributes.wf(),
                s.topic@ == self.topic@,
                s.payload@ == self.payload@,
                s.key == self.key,
                s.producer_config == self.producer_config,
                forall|k: Seq<char>|
                    s.attributes.spec_get(k) == (if crate::attrs::spec_lookup(add.take(i as int), k) is Some {
                        crate::attrs::spec_lookup(add.take(i as int), k)
                    } else {
                        orig.spec_get(k)
                    }),
            decreases n - i,
        {
            let entry = &attrs.entries()[i];
            let k = entry.0.clone();
            let v = entry.1.clone();
            s.attributes.insert(k, v);
            proof {
                assert(add.take(i + 1) =~= add.take(i as int).push(add[i as int]));
                assert forall|k2: Seq<char>| true implies crate::attrs::spec_lookup(
                    add.take(i + 1),
                    k2,
                ) == (if crate::attrs::spec_lookup(add.take(i as int), k2) is Some {
                    crate::attrs::spec_lookup(add.take(i as int), k2)
                } else if add[i as int].0@ == k2 {
                    Some(add[i as int].1@)
                } else {
                    None::<Seq<char>>
                }) by {
                    crate::attrs::lemma_lookup_push(add.take(i as int), add[i as int], k2);
                }
                assert forall|k2: Seq<char>|
                    crate::attrs::spec_lookup(add.take(i as int), k2) is Some implies add[i as int].0@
                    != k2 by {
                    lemma_lookup_found_index(add.take(i as int), k2);
                }
            }
            i = i + 1;
        }
        proof {
            assert(add.take(n as int) =~= add);
        }
        s
    }

    /// The record with the routing key set.
    pub fn with_key(self, key: String) -> (r: SourceRecord)
        ensures
            (r.key matches Some(k) && k@ == key@),
            r.topic@ == self.topic@,
            r.payload@ == self.payload@,
            r.attributes == self.attributes,
            r.producer_config == self.producer_config,
    {
        let mut s = self;
        s.key = Some(key);
        s
    }

    /// The record with a producer configuration override for its topic.
    pub fn with_producer_config(self, config: ProducerConfig) -> (r: SourceRecord)
        ensures
            r.producer_config == Some(config),
            r.topic@ == self.topic@,
            r.payload@ == self.payload@,
            r.attributes == self.attributes,
            r.key == self.key,
    {
        let mut s = self;
        s.producer_config = Some(config);
        s
    }

    /// The payload size in bytes.
    pub fn size(&self) -> (n: usize)
        ensures
            n == self.payload@.len(),
    {
        self.payload.len()
    }

    /// The payload as UTF-8 text; `InvalidData` exactly when the bytes are
    /// not valid UTF-8.
    pub fn payload_str(&self) -> (r: Result<&str, ConnectorError>)
        ensures
            r is Ok <==> valid_utf8(self.payload@),
            (r matches Ok(s) ==> s@ == decode_utf8(self.payload@)),
            (r matches Err(e) ==> e.kind == ErrorKind::InvalidData),
    {
        match utf8_to_str(self.payload.as_slice()) {
            Some(s) => Ok(s),
            None => Err(ConnectorError::invalid_data("Payload is not valid UTF-8".to_owned())),
        }
    }
}

/// A successful lookup names an index holding the key.
proof fn lemma_lookup_found_index(s: Seq<(String, String)>, k: Seq<char>)
    requires
        crate::attrs::spec_lookup(s, k) is Some,
    ensures
        exists|i: int| 0 <= i < s.len() && s[i].0@ == k,
    decreases s.len(),
{
    if s.len() > 0 {
        if s[0].0@ == k {
        } else {
            lemma_lookup_found_index(s.drop_first(), k);
            let i = choose|i: int| 0 <= i < s.drop_first().len() && s.drop_first()[i].0@ == k;
            assert(s[i + 1].0@ == k);
        }
    }
}

} // verus!
