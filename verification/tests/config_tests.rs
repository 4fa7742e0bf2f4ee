use danube_connect::config::{parse_subscription_type, ConnectorConfig, SubscriptionType};
use danube_connect::error::{ConnectorError, ErrorKind};

#[test]
fn test_config_default() {
    let config = ConnectorConfig::default();
    assert_eq!(config.danube_service_url, "http://localhost:6650");
    assert_eq!(config.connector_name, "default-connector");
    assert_eq!(config.retry.max_retries, 3);
    assert_eq!(config.processing.batch_size, 1000);
}

#[test]
fn test_config_validation() {
    let mut config = ConnectorConfig::default();
    assert!(config.validate().is_ok());

    config.danube_service_url = "".to_string();
    assert!(config.validate().is_err());

    config.danube_service_url = "http://localhost:6650".to_string();
    config.processing.batch_size = 0;
    assert!(config.validate().is_err());
}

#[test]
fn test_config_validation_error_kind() {
    let mut config = ConnectorConfig::default();
    config.connector_name = "".to_string();
    let err = config.validate().unwrap_err();
    assert_eq!(err.kind(), ErrorKind::Config);
    assert_eq!(err.exit_code(), 3);
}

#[test]
fn test_config_max_retries_limit() {
    let mut config = ConnectorConfig::default();
    config.retry.max_retries = 100;
    assert!(config.validate().is_ok());
    config.retry.max_retries = 101;
    assert!(config.validate().is_err());
}

#[test]
fn test_parse_subscription_type() {
    assert_eq!(parse_subscription_type("exclusive"), Some(SubscriptionType::Exclusive));
    assert_eq!(parse_subscription_type("Shared"), Some(SubscriptionType::Shared));
    assert_eq!(parse_subscription_type("FAILOVER"), Some(SubscriptionType::FailOver));
    assert_eq!(parse_subscription_type("other"), None);
}

#[test]
fn test_error_exit_codes() {
    assert_eq!(ConnectorError::fatal("boom".to_string()).exit_code(), 2);
    assert_eq!(ConnectorError::config("bad".to_string()).exit_code(), 3);
    assert_eq!(ConnectorError::retryable("later".to_string()).exit_code(), 1);
}

#[test]
fn test_error_cause_chain() {
    let inner = ConnectorError::retryable("socket closed".to_string());
    let outer = ConnectorError::fatal("publish failed".to_string()).with_cause(inner);
    assert_eq!(outer.kind(), ErrorKind::Fatal);
    let cause = outer.cause().as_ref().unwrap();
    assert_eq!(cause.kind(), ErrorKind::Retryable);
    assert_eq!(cause.message(), "socket closed");
}
