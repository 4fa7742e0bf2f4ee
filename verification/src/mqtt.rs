//! Configuration surface of the MQTT source connector: broker connection
//! settings, MQTT-to-broker topic mappings, and its validation rules.

use vstd::prelude::*;
use crate::config::{ConnectorConfig, spec_config_valid};
use crate::error::{ConnectorError, ErrorKind};
use crate::text::concat_str;

verus! {

/// MQTT quality-of-service level.
#[derive(Debug, Clone, Copy, PartialEq, Eq, Structural)]
pub enum QoS {
    /// At most once delivery (level 0).
    AtMostOnce,
    /// At least once delivery (level 1).
    AtLeastOnce,
    /// Exactly once delivery (level 2).
    ExactlyOnce,
}

/// The quality-of-service level for a numeric code: 0, 1 or 2; any other
/// code falls back to at-least-once.
pub fn parse_qos(level: u8) -> (r: QoS)
    ensures
        r == (match level {
            0u8 => QoS::AtMostOnce,
            1u8 => QoS::AtLeastOnce,
            2u8 => QoS::ExactlyOnce,
            _ => QoS::AtLeastOnce,
        }),
{
    match level {
        0 => QoS::AtMostOnce,
        1 => QoS::AtLeastOnce,
        2 => QoS::ExactlyOnce,
        _ => QoS::AtLeastOnce,
    }
}

/// The default quality of service: at least once.
pub fn default_qos() -> (r: QoS)
    ensures
        r == QoS::AtLeastOnce,
{
    QoS::AtLeastOnce
}

/// Mapping from one MQTT topic pattern to one broker topic.
#[derive(Debug, Clone)]
pub struct TopicMapping {
    /// MQTT topic pattern; `+` and `#` wildcards are allowed.
    pub mqtt_topic: String,
    /// Target broker topic, in `/namespace/name` form.
    pub danube_topic: String,
    /// Quality of service for the subscription.
    pub qos: QoS,
}

/// `s` with every `'#'` spelled out as `all`.
pub open spec fn spec_expand_hash(s: Seq<char>) -> Seq<char> {
    s.flat_map(|c: char| if c == '#' { "all"@ } else { seq![c] })
}

/// `s` with every `'+'` spelled out as `any`.
pub open spec fn spec_expand_plus(s: Seq<char>) -> Seq<char> {
    s.flat_map(|c: char| if c == '+' { "any"@ } else { seq![c] })
}

/// Relies on `str::replace`: each `'#'` is replaced by `all`, the rest of
/// the characters are kept.
#[verifier::external_body]
fn replace_hash(s: &str) -> (r: String)
    ensures
        r@ == spec_expand_hash(s@),
{
    s.replace('#', "all")
}

/// Relies on `str::replace`: each `'+'` is replaced by `any`, the rest of
/// the characters are kept.
#[verifier::external_body]
fn replace_plus(s: &str) -> (r: String)
    ensures
        r@ == spec_expand_plus(s@),
{
    s.replace('+', "any")
}

/// The broker topic an MQTT topic maps to when none is configured:
/// `/mqtt` followed by the pattern with its wildcards spelled out
/// (`#` as `all`, `+` as `any`).
pub fn default_danube_topic(mqtt_topic: &str) -> (r: String)
    ensures
        r@ == "/mqtt"@ + spec_expand_plus(spec_expand_hash(mqtt_topic@)),
{
    let expanded = replace_hash(mqtt_topic);
    let expanded = replace_plus(expanded.as_str());
    concat_str("/mqtt", expanded.as_str())
}

/// Connector-specific configuration: the MQTT connection and the topic
/// mappings.
#[derive(Debug, Clone)]
pub struct MqttConfig {
    /// MQTT broker host (required, non-empty).
    pub broker_host: String,
    /// MQTT broker port.
    pub broker_port: u16,
    /// Client identifier (required, non-empty).
    pub client_id: String,
    /// Optional user name.
    pub username: Option<String>,
    /// Optional password.
    pub password: Option<String>,
    /// Whether to connect over TLS.
    pub use_tls: bool,
    /// Keep-alive interval, in seconds.
    pub keep_alive_secs: u64,
    /// Connection timeout, in seconds.
    pub connection_timeout_secs: u64,
    /// Largest accepted packet, in bytes.
    pub max_packet_size: usize,
    /// Topic mappings; at least one is required.
    pub topic_mappings: Vec<TopicMapping>,
    /// Whether to start with a clean session.
    pub clean_session: bool,
    /// Whether to attach MQTT metadata as record attributes.
    pub include_metadata: bool,
}

/// The default MQTT port.
pub fn default_port() -> (r: u16)
    ensures
        r == 1883,
{
    1883
}

/// The default keep-alive interval, in seconds.
pub fn default_keep_alive() -> (r: u64)
    ensures
        r == 60,
{
    60
}

/// The default connection timeout, in seconds.
pub fn default_connection_timeout() -> (r: u64)
    ensures
        r == 30,
{
    30
}

/// The default packet size limit: 10 MiB.
pub fn default_max_packet_size() -> (r: usize)
    ensures
        r == 10 * 1024 * 1024,
{
    10 * 1024 * 1024
}

/// The default for the boolean options that start enabled.
pub fn default_true() -> (r: bool)
    ensures
        r == true,
{
    true
}

/// The conditions one topic mapping must meet.
pub open spec fn spec_mapping_valid(m: TopicMapping) -> bool {
    &&& m.mqtt_topic@.len() > 0
    &&& m.danube_topic@.len() > 0
}

/// The conditions `MqttConfig::validate` enforces.
pub open spec fn spec_mqtt_valid(c: MqttConfig) -> bool {
    &&& c.broker_host@.len() > 0
    &&& c.client_id@.len() > 0
    &&& c.topic_mappings@.len() > 0
    &&& forall|i: int|
        0 <= i < c.topic_mappings@.len() ==> spec_mapping_valid(#[trigger] c.topic_mappings@[i])
}

impl MqttConfig {
    /// Accept the configuration if and only if the broker host and the
    /// client identifier are non-empty, at least one mapping is present,
    /// and every mapping has a non-empty MQTT topic and broker topic.
    pub fn validate(&self) -> (r: Result<(), ConnectorError>)
        ensures
            r is Ok <==> spec_mqtt_valid(*self),
            (r matches Err(e) ==> e.kind == ErrorKind::Config),
    {
        if self.broker_host.as_str().is_empty() {
            return Err(ConnectorError::config("broker_host cannot be empty".to_owned()));
        }
        if self.client_id.as_str().is_empty() {
            return Err(ConnectorError::config("client_id cannot be empty".to_owned()));
        }
        if self.topic_mappings.len() == 0 {
            return Err(ConnectorError::config(
                "At least one topic mapping is required".to_owned(),
            ));
        }
        let mut i: usize = 0;
        while i < self.topic_mappings.len()
            invariant
                0 <= i <= self.topic_mappings@.len(),
                forall|k: int| 0 <= k < i ==> spec_mapping_valid(#[trigger] self.topic_mappings@[k]),
            decreases self.topic_mappings@.len() - i,
        {
            let m = &self.topic_mappings[i];
            if m.mqtt_topic.as_str().is_empty() {
                return Err(ConnectorError::config("MQTT topic cannot be empty".to_owned()));
            }
            if m.danube_topic.as_str().is_empty() {
                return Err(ConnectorError::config("Danube topic cannot be empty".to_owned()));
            }
            i = i + 1;
        }
        Ok(())
    }
}

/// Unified configuration of the MQTT source connector.
#[derive(Debug, Clone)]
pub struct MqttSourceConfig {
    /// Core connector configuration.
    pub core: ConnectorConfig,
    /// Connector-specific configuration.
    pub mqtt: MqttConfig,
}

impl MqttSourceConfig {
    /// Accept if and only if both the core and the connector-specific
    /// configuration are valid.
    pub fn validate(&self) -> (r: Result<(), ConnectorError>)
        ensures
            r is Ok <==> spec_config_valid(self.core) && spec_mqtt_valid(self.mqtt),
            (r matches Err(e) ==> e.kind == ErrorKind::Config),
    {
        self.core.validate()?;
        self.mqtt.validate()?;
        Ok(())
    }
}

} // verus!
