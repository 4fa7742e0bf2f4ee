use danube_connect::attrs::AttrMap;
use danube_connect::message::{SchemaType, SinkRecord, SourceRecord};

fn create_test_record() -> SinkRecord {
    SinkRecord::from_parts(
        "/default/test".to_string(),
        100,
        42,
        1234567890,
        "test-producer".to_string(),
        b"test payload".to_vec(),
        AttrMap::new(),
        None,
    )
}

#[test]
fn test_sink_record_basic() {
    let record = create_test_record();

    assert_eq!(record.payload(), b"test payload");
    assert_eq!(record.payload_size(), 12);
    assert_eq!(record.topic(), "/default/test");
    assert_eq!(record.offset(), 42);
    assert_eq!(record.producer_name(), "test-producer");
}

#[test]
fn test_sink_record_message_id() {
    let record = create_test_record();
    assert_eq!(record.message_id(), "topic:/default/test/producer:100/offset:42");
}

#[test]
fn test_sink_record_payload_str() {
    let record = create_test_record();

    assert_eq!(record.payload_str().unwrap(), "test payload");
}

#[test]
fn test_sink_record_json() {
    let mut m = serde_json::Map::new();
    m.insert("name".to_string(), serde_json::Value::String("test".to_string()));
    m.insert("value".to_string(), serde_json::Value::from(42));
    let data = serde_json::Value::Object(m);

    let mut record = create_test_record();
    record.payload = serde_json::to_vec(&data).unwrap();

    let decoded = record.payload_json().unwrap();
    assert_eq!(decoded, data);
}

#[test]
fn test_sink_record_payload_int64() {
    let value: i64 = 42;
    let mut record = create_test_record();
    record.payload = value.to_be_bytes().to_vec();

    assert_eq!(record.payload_int64().unwrap(), 42);
}

#[test]
fn test_sink_record_payload_int64_invalid_length() {
    let mut record = create_test_record();
    record.payload = vec![1, 2, 3]; // Only 3 bytes, not 8

    assert!(record.payload_int64().is_err());
}

#[test]
fn test_sink_record_payload_base64() {
    let mut record = create_test_record();
    record.payload = vec![0x01, 0x02, 0x03, 0x04];

    let base64 = record.payload_base64();

    assert_eq!(base64, "AQIDBA==");
}

#[test]
fn test_sink_record_attributes() {
    let mut attrs = AttrMap::new();
    attrs.insert("key1".to_string(), "value1".to_string());
    let record = SinkRecord::from_parts(
        "/default/test".to_string(),
        100,
        42,
        1234567890,
        "test-producer".to_string(),
        b"test payload".to_vec(),
        attrs,
        None,
    );

    assert_eq!(record.get_attribute("key1"), Some("value1"));
    assert_eq!(record.get_attribute("key2"), None);
    assert!(record.has_attribute("key1"));
    assert!(!record.has_attribute("key2"));
}

#[test]
fn test_sink_record_payload_deserialized() {
    let mut record = create_test_record();

    let text = record.payload_deserialized(SchemaType::Utf8).unwrap();
    assert_eq!(text["data"], "test payload");

    record.payload = 7i64.to_be_bytes().to_vec();
    let number = record.payload_deserialized(SchemaType::Int64).unwrap();
    assert_eq!(number["value"], 7);

    record.payload = vec![0x01, 0x02, 0x03, 0x04];
    let bytes = record.payload_deserialized(SchemaType::Bytes).unwrap();
    assert_eq!(bytes["data"], "AQIDBA==");
    assert_eq!(bytes["size"], 4);

    record.payload = b"not json".to_vec();
    assert!(record.payload_deserialized(SchemaType::Json).is_err());
}

#[test]
fn test_base64_round_trip() {
    let bytes = vec![0u8, 255, 7, 42, 128];
    let decoded = danube_connect::codec::base64_round_trip(&bytes);
    assert_eq!(decoded, bytes);
}

#[test]
fn test_int64_round_trip() {
    for value in [0i64, 1, -1, i64::MAX, i64::MIN, 42] {
        let bytes = danube_connect::codec::i64_to_be_bytes(value);
        assert_eq!(bytes, value.to_be_bytes().to_vec());
        let back = danube_connect::codec::i64_from_be_bytes(&bytes);
        assert_eq!(back, value);
    }
}

#[test]
fn test_source_record_basic() {
    let record = SourceRecord::new("/default/events".to_string(), b"test".to_vec());

    assert_eq!(record.topic, "/default/events");
    assert_eq!(record.payload, b"test");
    assert_eq!(record.size(), 4);
    assert!(record.attributes.is_empty());
    assert!(record.key.is_none());
}

#[test]
fn test_source_record_from_string() {
    let record = SourceRecord::from_string("/default/events".to_string(), "test message");

    assert_eq!(record.payload_str().unwrap(), "test message");
}

#[test]
fn test_source_record_from_json() {
    let mut m = serde_json::Map::new();
    m.insert("name".to_string(), serde_json::Value::String("test".to_string()));
    m.insert("value".to_string(), serde_json::Value::from(42));
    let data = serde_json::Value::Object(m);

    let record = SourceRecord::from_json("/default/events".to_string(), &data).unwrap();

    let json: serde_json::Value = serde_json::from_slice(&record.payload).unwrap();
    assert_eq!(json["name"], "test");
    assert_eq!(json["value"], 42);
}

#[test]
fn test_source_record_builder() {
    let record = SourceRecord::new("/default/events".to_string(), b"test".to_vec())
        .with_attribute("source".to_string(), "test-connector".to_string())
        .with_attribute("version".to_string(), "1.0".to_string())
        .with_key("user-123".to_string());

    assert_eq!(record.attributes.get("source"), Some(&"test-connector".to_string()));
    assert_eq!(record.attributes.get("version"), Some(&"1.0".to_string()));
    assert_eq!(record.key, Some("user-123".to_string()));
}

#[test]
fn test_attr_map_insert_replaces() {
    let mut attrs = AttrMap::new();
    attrs.insert("k".to_string(), "v1".to_string());
    attrs.insert("k".to_string(), "v2".to_string());
    assert_eq!(attrs.len(), 1);
    assert_eq!(attrs.get("k"), Some(&"v2".to_string()));
}

#[test]
fn test_source_record_with_attributes_overrides() {
    let mut extra = AttrMap::new();
    extra.insert("a".to_string(), "2".to_string());
    extra.insert("b".to_string(), "3".to_string());
    let record = SourceRecord::new("/t".to_string(), vec![])
        .with_attribute("a".to_string(), "1".to_string())
        .with_attributes(extra);
    assert_eq!(record.attributes.get("a"), Some(&"2".to_string()));
    assert_eq!(record.attributes.get("b"), Some(&"3".to_string()));
}
