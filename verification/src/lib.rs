//! Core logic of a mutually-TLS-authenticated Kafka client: connection
//! configuration and its validation, per-record decode and render steps of the
//! consumer loop, the consumer lifecycle state machine, and the producer's
//! index-stable batch outcome aggregation. Network and log I/O live outside
//! this crate; every function here is verified.

pub mod config;
pub mod consumer;
pub mod custom_context;
pub mod producer;
pub mod records;
pub mod text;
