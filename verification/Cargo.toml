[package]
name = "rust_with_kafka_tls"
version = "0.1.0"
edition = "2021"
publish = false

[dependencies]
rdkafka = "*"
tokio = { version = "*", features = ["macros", "rt-multi-thread"] }
clap = "*"
log = "*"
env_logger = "*"
chrono = "*"
