use danube_connect::config::{ConnectorConfig, SubscriptionType};
use danube_connect::message::SchemaType;
use danube_connect::mqtt::{default_danube_topic, parse_qos, MqttConfig, QoS};
use danube_connect::qdrant::{parse_distance, Distance, QdrantConfig};
use danube_connect::surrealdb::{self, SurrealDBConfig, SurrealDBSinkConfig};

#[test]
fn config_test_config_validation() {
    // the vector-index sink configuration
    let mut config = QdrantConfig {
        url: "http://localhost:6334".to_string(),
        api_key: None,
        topic_mappings: vec![danube_connect::qdrant::TopicMapping {
            topic: "/default/vectors".to_string(),
            subscription: "qdrant-sink-sub".to_string(),
            subscription_type: SubscriptionType::Exclusive,
            collection_name: "test_collection".to_string(),
            vector_dimension: 1536,
            distance: Distance::Cosine,
            auto_create_collection: true,
            include_danube_metadata: true,
            batch_size: None,
            batch_timeout_ms: None,
        }],
        batch_size: 100,
        batch_timeout_ms: 1000,
        timeout_secs: 30,
    };

    assert!(config.validate().is_ok());

    // Test empty URL
    config.url = "".to_string();
    assert!(config.validate().is_err());

    // Test empty topic mappings
    config.url = "http://localhost:6334".to_string();
    config.topic_mappings = vec![];
    assert!(config.validate().is_err());
}

#[test]
fn test_effective_batch_settings() {
    let mut mapping = danube_connect::qdrant::TopicMapping {
        topic: "/default/vectors".to_string(),
        subscription: "sub".to_string(),
        subscription_type: SubscriptionType::Exclusive,
        collection_name: "c".to_string(),
        vector_dimension: 4,
        distance: Distance::Cosine,
        auto_create_collection: true,
        include_danube_metadata: true,
        batch_size: None,
        batch_timeout_ms: None,
    };
    assert_eq!(mapping.effective_batch_size(100), 100);
    assert_eq!(mapping.effective_batch_timeout(1000), 1000);
    mapping.batch_size = Some(7);
    mapping.batch_timeout_ms = Some(250);
    assert_eq!(mapping.effective_batch_size(100), 7);
    assert_eq!(mapping.effective_batch_timeout(1000), 250);
}

#[test]
fn test_parse_distance() {
    assert_eq!(parse_distance("cosine"), Some(Distance::Cosine));
    assert_eq!(parse_distance("Euclid"), Some(Distance::Euclid));
    assert_eq!(parse_distance("DOT"), Some(Distance::Dot));
    assert_eq!(parse_distance("manhattan"), Some(Distance::Manhattan));
    assert_eq!(parse_distance("chebyshev"), None);
}

fn surrealdb_config() -> danube_connect::surrealdb::SurrealDBSinkConfig {
    let mut core = ConnectorConfig::default();
    core.connector_name = "test".to_string();
    core.danube_service_url = "http://localhost:6650".to_string();
    SurrealDBSinkConfig {
        core,
        surrealdb: SurrealDBConfig {
            url: "ws://localhost:8000".to_string(),
            namespace: "test".to_string(),
            database: "test".to_string(),
            username: None,
            password: None,
            connection_timeout_secs: 30,
            request_timeout_secs: 30,
            topic_mappings: vec![danube_connect::surrealdb::TopicMapping {
                topic: "/test/topic".to_string(),
                subscription: "test-sub".to_string(),
                table_name: "events".to_string(),
                include_danube_metadata: true,
                batch_size: None,
                flush_interval_ms: None,
                schema_type: SchemaType::Json,
            }],
            batch_size: 100,
            flush_interval_ms: 1000,
        },
    }
}

#[test]
fn surrealdb_test_config_validation() {
    let mut config = surrealdb_config();

    assert!(config.validate().is_ok());

    // Test empty URL
    config.surrealdb.url = "".to_string();
    assert!(config.validate().is_err());
    config.surrealdb.url = "ws://localhost:8000".to_string();

    // Test empty topic mappings
    config.surrealdb.topic_mappings.clear();
    assert!(config.validate().is_err());
}

#[test]
fn test_default_values() {
    assert_eq!(surrealdb::default_batch_size(), 100);
    assert_eq!(surrealdb::default_flush_interval_ms(), 1000);
    assert_eq!(surrealdb::default_connection_timeout(), 30);
    assert_eq!(surrealdb::default_request_timeout(), 30);
    assert!(surrealdb::default_include_metadata());
}

#[test]
fn mqtt_test_config_validation() {
    let mut config = MqttConfig {
        broker_host: "localhost".to_string(),
        broker_port: 1883,
        client_id: "test-client".to_string(),
        username: None,
        password: None,
        use_tls: false,
        keep_alive_secs: 60,
        connection_timeout_secs: 30,
        max_packet_size: 1024 * 1024,
        topic_mappings: vec![danube_connect::mqtt::TopicMapping {
            mqtt_topic: "sensors/#".to_string(),
            danube_topic: "/mqtt/sensors".to_string(),
            qos: QoS::AtLeastOnce,
        }],
        clean_session: true,
        include_metadata: true,
    };

    assert!(config.validate().is_ok());

    // Test empty broker host
    config.broker_host = "".to_string();
    assert!(config.validate().is_err());

    // Test empty topic mappings
    config.broker_host = "localhost".to_string();
    config.topic_mappings = vec![];
    assert!(config.validate().is_err());
}

#[test]
fn test_parse_qos() {
    assert_eq!(parse_qos(0), QoS::AtMostOnce);
    assert_eq!(parse_qos(1), QoS::AtLeastOnce);
    assert_eq!(parse_qos(2), QoS::ExactlyOnce);
    assert_eq!(parse_qos(9), QoS::AtLeastOnce);
}

#[test]
fn test_default_danube_topic() {
    assert_eq!(default_danube_topic("/sensors/#"), "/mqtt/sensors/all");
    assert_eq!(default_danube_topic("/a/+/b"), "/mqtt/a/any/b");
}

#[test]
fn test_qdrant_validate_names_mapping_index() {
    let config = QdrantConfig {
        url: "http://localhost:6334".to_string(),
        api_key: None,
        topic_mappings: vec![danube_connect::qdrant::TopicMapping {
            topic: "/t".to_string(),
            subscription: "s".to_string(),
            subscription_type: SubscriptionType::Exclusive,
            collection_name: "c".to_string(),
            vector_dimension: 4,
            distance: Distance::Cosine,
            auto_create_collection: true,
            include_danube_metadata: true,
            batch_size: None,
            batch_timeout_ms: None,
        }, danube_connect::qdrant::TopicMapping {
            topic: "".to_string(),
            subscription: "s2".to_string(),
            subscription_type: SubscriptionType::Exclusive,
            collection_name: "c2".to_string(),
            vector_dimension: 4,
            distance: Distance::Cosine,
            auto_create_collection: true,
            include_danube_metadata: true,
            batch_size: None,
            batch_timeout_ms: None,
        }],
        batch_size: 100,
        batch_timeout_ms: 1000,
        timeout_secs: 30,
    };
    let err = config.validate().unwrap_err();
    assert_eq!(err.message(), "Topic mapping 1 has empty topic");
}
