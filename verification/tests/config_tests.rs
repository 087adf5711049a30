use rust_with_kafka_tls::config::{
    ConfigError, ConnectionConfig, ConsumerConfig, ProducerConfig, SecurityMode,
};
use rust_with_kafka_tls::config::{consumer_client_settings, producer_client_settings};
use rust_with_kafka_tls::consumer::Consumer;
use rust_with_kafka_tls::custom_context::CustomContext;

fn valid_tls_connection() -> ConnectionConfig {
    ConnectionConfig {
        brokers: vec!["localhost:9092".to_string()],
        security_mode: SecurityMode::MutualTls,
        ca_path: Some("./tls/ca.pem".to_string()),
        key_path: Some("./tls/client-key.pem".to_string()),
        cert_path: Some("./tls/client.pem".to_string()),
        verify_server_cert: true,
    }
}

#[test]
fn empty_broker_list_is_rejected() {
    let r = ConnectionConfig::new(
        Vec::new(),
        SecurityMode::Plaintext,
        None,
        None,
        None,
    );
    assert_eq!(r.unwrap_err(), ConfigError::EmptyBrokerList);
}

#[test]
fn empty_brokers_never_reach_subscription() {
    let conn = ConnectionConfig {
        brokers: Vec::new(),
        security_mode: SecurityMode::Plaintext,
        ca_path: None,
        key_path: None,
        cert_path: None,
        verify_server_cert: true,
    };
    let cfg = ConsumerConfig {
        connection: conn,
        group_id: "g1".to_string(),
        topics: vec!["t1".to_string()],
        session_timeout_ms: 6000,
        auto_commit: true,
        partition_eof_enabled: false,
    };
    let r = Consumer::subscribe(cfg, CustomContext);
    assert_eq!(r.err().unwrap(), ConfigError::EmptyBrokerList);
}

#[test]
fn mutual_tls_missing_ca_is_rejected() {
    let r = ConnectionConfig::new(
        vec!["localhost:9092".to_string()],
        SecurityMode::MutualTls,
        None,
        Some("k.pem".to_string()),
        Some("c.pem".to_string()),
    );
    assert_eq!(r.unwrap_err(), ConfigError::MissingCaPath);
}

#[test]
fn mutual_tls_missing_key_is_rejected() {
    let r = ConnectionConfig::new(
        vec!["localhost:9092".to_string()],
        SecurityMode::MutualTls,
        Some("ca.pem".to_string()),
        None,
        Some("c.pem".to_string()),
    );
    assert_eq!(r.unwrap_err(), ConfigError::MissingKeyPath);
}

#[test]
fn mutual_tls_empty_cert_path_is_rejected() {
    let r = ConnectionConfig::new(
        vec!["localhost:9092".to_string()],
        SecurityMode::MutualTls,
        Some("ca.pem".to_string()),
        Some("k.pem".to_string()),
        Some(String::new()),
    );
    assert_eq!(r.unwrap_err(), ConfigError::MissingCertPath);
}

#[test]
fn mutual_tls_with_all_material_is_accepted() {
    let r = ConnectionConfig::new(
        vec!["localhost:9092".to_string()],
        SecurityMode::MutualTls,
        Some("ca.pem".to_string()),
        Some("k.pem".to_string()),
        Some("c.pem".to_string()),
    );
    let c = r.unwrap();
    assert!(c.verify_server_cert);
    assert_eq!(c.brokers, vec!["localhost:9092".to_string()]);
}

#[test]
fn plaintext_needs_no_tls_material() {
    let r = ConnectionConfig::new(
        vec!["localhost:9092".to_string()],
        SecurityMode::Plaintext,
        None,
        None,
        None,
    );
    assert!(r.is_ok());
}

#[test]
fn empty_group_id_is_rejected() {
    let r = ConsumerConfig::new(valid_tls_connection(), String::new(), vec!["t1".to_string()]);
    assert_eq!(r.unwrap_err(), ConfigError::EmptyGroupId);
}

#[test]
fn empty_topic_set_is_rejected() {
    let r = ConsumerConfig::new(valid_tls_connection(), "g1".to_string(), Vec::new());
    assert_eq!(r.unwrap_err(), ConfigError::EmptyTopicSet);
}

#[test]
fn consumer_config_defaults() {
    let c = ConsumerConfig::new(
        valid_tls_connection(),
        "g1".to_string(),
        vec!["t1".to_string()],
    )
    .unwrap();
    assert_eq!(c.session_timeout_ms, 6000);
    assert!(c.auto_commit);
    assert!(!c.partition_eof_enabled);
}

#[test]
fn producer_config_defaults() {
    let p = ProducerConfig::new(valid_tls_connection()).unwrap();
    assert_eq!(p.delivery_timeout_ms, 5000);
}

#[test]
fn producer_config_propagates_connection_fault() {
    let mut conn = valid_tls_connection();
    conn.key_path = None;
    let r = ProducerConfig::new(conn);
    assert_eq!(r.unwrap_err(), ConfigError::MissingKeyPath);
}

#[test]
fn consumer_settings_listing_under_mutual_tls() {
    let mut conn = valid_tls_connection();
    conn.brokers = vec!["b0:32151".to_string(), "b1:32152".to_string()];
    let cfg = ConsumerConfig::new(conn, "rust-consumer-testing".to_string(), vec![
        "testing".to_string(),
    ])
    .unwrap();
    let settings = consumer_client_settings(&cfg);
    let expected = vec![
        ("group.id", "rust-consumer-testing"),
        ("bootstrap.servers", "b0:32151,b1:32152"),
        ("enable.partition.eof", "false"),
        ("session.timeout.ms", "6000"),
        ("enable.auto.commit", "true"),
        ("security.protocol", "SSL"),
        ("ssl.ca.location", "./tls/ca.pem"),
        ("ssl.key.location", "./tls/client-key.pem"),
        ("ssl.certificate.location", "./tls/client.pem"),
        ("enable.ssl.certificate.verification", "true"),
    ];
    let got: Vec<(&str, &str)> = settings
        .iter()
        .map(|(k, v)| (k.as_str(), v.as_str()))
        .collect();
    assert_eq!(got, expected);
}

#[test]
fn producer_settings_listing_under_plaintext() {
    let conn = ConnectionConfig::new(
        vec!["localhost:9092".to_string()],
        SecurityMode::Plaintext,
        None,
        None,
        None,
    )
    .unwrap();
    let cfg = ProducerConfig::new(conn).unwrap();
    let settings = producer_client_settings(&cfg);
    let expected = vec![
        ("bootstrap.servers", "localhost:9092"),
        ("message.timeout.ms", "5000"),
        ("security.protocol", "PLAINTEXT"),
    ];
    let got: Vec<(&str, &str)> = settings
        .iter()
        .map(|(k, v)| (k.as_str(), v.as_str()))
        .collect();
    assert_eq!(got, expected);
}
