//! Connection configuration for both client roles, its fail-fast validation,
//! and the flat key/value settings each role hands to the underlying client.

use vstd::prelude::*;
use vstd::string::StringExecFns;
use crate::text::{dec_nat, join_strings, join_with, u64_to_dec};

verus! {

/// How the transport is secured: no encryption, or mutual TLS where both
/// sides present certificates verified against a shared authority.
#[derive(Clone, Copy, Debug, PartialEq, Eq, Structural)]
pub enum SecurityMode {
    Plaintext,
    MutualTls,
}

/// A configuration fault found before any network activity.
#[derive(Clone, Copy, Debug, PartialEq, Eq, Structural)]
pub enum ConfigError {
    EmptyBrokerList,
    MissingCaPath,
    MissingKeyPath,
    MissingCertPath,
    EmptyGroupId,
    EmptyTopicSet,
}

/// Connection parameters shared by the consumer and producer roles.
#[derive(Clone, Debug)]
pub struct ConnectionConfig {
    pub brokers: Vec<String>,
    pub security_mode: SecurityMode,
    pub ca_path: Option<String>,
    pub key_path: Option<String>,
    pub cert_path: Option<String>,
    pub verify_server_cert: bool,
}

/// Consumer-role settings on top of the shared connection parameters.
#[derive(Clone, Debug)]
pub struct ConsumerConfig {
    pub connection: ConnectionConfig,
    pub group_id: String,
    pub topics: Vec<String>,
    pub session_timeout_ms: u64,
    pub auto_commit: bool,
    pub partition_eof_enabled: bool,
}

/// Producer-role settings on top of the shared connection parameters.
#[derive(Clone, Debug)]
pub struct ProducerConfig {
    pub connection: ConnectionConfig,
    pub delivery_timeout_ms: u64,
}

pub const DEFAULT_SESSION_TIMEOUT_MS: u64 = 6000;

pub const DEFAULT_DELIVERY_TIMEOUT_MS: u64 = 5000;

/// A TLS material path counts as supplied only when it is present and
/// non-empty.
pub open spec fn path_present(p: Option<String>) -> bool {
    match p {
        Option::Some(s) => s@.len() > 0,
        Option::None => false,
    }
}

/// The path's text, or empty when it is absent.
pub open spec fn path_text(p: Option<String>) -> Seq<char> {
    match p {
        Option::Some(s) => s@,
        Option::None => Seq::empty(),
    }
}

/// A connection configuration is acceptable when it names at least one
/// broker and, under mutual TLS, supplies all three pieces of TLS material.
pub open spec fn connection_ok(c: ConnectionConfig) -> bool {
    &&& c.brokers@.len() > 0
    &&& (c.security_mode is MutualTls ==> path_present(c.ca_path) && path_present(c.key_path)
        && path_present(c.cert_path))
}

/// The first fault of a connection configuration, in the order the checks
/// are made: broker list, then CA, key and certificate paths.
pub open spec fn connection_flaw(c: ConnectionConfig) -> Option<ConfigError> {
    if c.brokers@.len() == 0 {
        Option::Some(ConfigError::EmptyBrokerList)
    } else if c.security_mode is MutualTls && !path_present(c.ca_path) {
        Option::Some(ConfigError::MissingCaPath)
    } else if c.security_mode is MutualTls && !path_present(c.key_path) {
        Option::Some(ConfigError::MissingKeyPath)
    } else if c.security_mode is MutualTls && !path_present(c.cert_path) {
        Option::Some(ConfigError::MissingCertPath)
    } else {
        Option::None
    }
}

/// A consumer configuration additionally needs a non-empty group id and a
/// non-empty topic set.
pub open spec fn consumer_ok(c: ConsumerConfig) -> bool {
    &&& connection_ok(c.connection)
    &&& c.group_id@.len() > 0
    &&& c.topics@.len() > 0
}

/// The first fault of a consumer configuration: connection faults first,
/// then the group id, then the topic set.
pub open spec fn consumer_flaw(c: ConsumerConfig) -> Option<ConfigError> {
    if connection_flaw(c.connection) is Some {
        connection_flaw(c.connection)
    } else if c.group_id@.len() == 0 {
        Option::Some(ConfigError::EmptyGroupId)
    } else if c.topics@.len() == 0 {
        Option::Some(ConfigError::EmptyTopicSet)
    } else {
        Option::None
    }
}

/// Law: a configuration has no fault exactly when it is acceptable.
pub proof fn lemma_connection_flaw_none_iff_ok(c: ConnectionConfig)
    ensures
        connection_flaw(c) is None <==> connection_ok(c),
{
}

/// Law: under mutual TLS, any missing piece of TLS material is a fault, so
/// construction fails before any network attempt could be made.
pub proof fn lemma_mutual_tls_requires_material(c: ConnectionConfig)
    requires
        c.security_mode is MutualTls,
        !path_present(c.ca_path) || !path_present(c.key_path) || !path_present(c.cert_path),
    ensures
        connection_flaw(c) is Some,
        !connection_ok(c),
{
}

/// Law: an empty broker list is always the first fault reported.
pub proof fn lemma_empty_brokers_rejected(c: ConnectionConfig)
    requires
        c.brokers@.len() == 0,
    ensures
        connection_flaw(c) == Option::Some(ConfigError::EmptyBrokerList),
{
}

fn path_is_present(p: &Option<String>) -> (r: bool)
    ensures
        r == path_present(*p),
{
    match p {
        Option::Some(s) => !s.as_str().is_empty(),
        Option::None => false,
    }
}

impl ConnectionConfig {
    /// Builds a connection configuration, failing fast on the first fault.
    /// Server-certificate verification defaults to on.
    pub fn new(
        brokers: Vec<String>,
        security_mode: SecurityMode,
        ca_path: Option<String>,
        key_path: Option<String>,
        cert_path: Option<String>,
    ) -> (r: Result<ConnectionConfig, ConfigError>)
        ensures
            r is Ok <==> connection_ok(
                (ConnectionConfig {
                    brokers,
                    security_mode,
                    ca_path,
                    key_path,
                    cert_path,
                    verify_server_cert: true,
                }),
            ),
            r matches Ok(c) ==> c == (ConnectionConfig {
                brokers,
                security_mode,
                ca_path,
                key_path,
                cert_path,
                verify_server_cert: true,
            }),
            r matches Err(e) ==> Option::Some(e) == connection_flaw(
                (ConnectionConfig {
                    brokers,
                    security_mode,
                    ca_path,
                    key_path,
                    cert_path,
                    verify_server_cert: true,
                }),
            ),
    {
        let c = ConnectionConfig {
            brokers,
            security_mode,
            ca_path,
            key_path,
            cert_path,
            verify_server_cert: true,
        };
        match c.validate() {
            Result::Ok(()) => Result::Ok(c),
            Result::Err(e) => Result::Err(e),
        }
    }

    /// Reports the first fault of this configuration, or nothing when it is
    /// acceptable.
    pub fn validate(&self) -> (r: Result<(), ConfigError>)
        ensures
            r is Ok <==> connection_ok(*self),
            r matches Err(e) ==> Option::Some(e) == connection_flaw(*self),
    {
        if self.brokers.len() == 0 {
            return Result::Err(ConfigError::EmptyBrokerList);
        }
        if self.security_mode == SecurityMode::MutualTls {
            if !path_is_present(&self.ca_path) {
                return Result::Err(ConfigError::MissingCaPath);
            }
            if !path_is_present(&self.key_path) {
                return Result::Err(ConfigError::MissingKeyPath);
            }
            if !path_is_present(&self.cert_path) {
                return Result::Err(ConfigError::MissingCertPath);
            }
        }
        Result::Ok(())
    }
}

impl ConsumerConfig {
    /// Builds a consumer configuration over a connection configuration,
    /// failing fast on the first fault. Session timeout, explicit-async
    /// commit and the partition-EOF flag take their default values.
    pub fn new(connection: ConnectionConfig, group_id: String, topics: Vec<String>) -> (r: Result<
        ConsumerConfig,
        ConfigError,
    >)
        ensures
            r is Ok <==> consumer_ok(
                (ConsumerConfig {
                    connection,
                    group_id,
                    topics,
                    session_timeout_ms: DEFAULT_SESSION_TIMEOUT_MS,
                    auto_commit: true,
                    partition_eof_enabled: false,
                }),
            ),
            r matches Ok(c) ==> c == (ConsumerConfig {
                connection,
                group_id,
                topics,
                session_timeout_ms: DEFAULT_SESSION_TIMEOUT_MS,
                auto_commit: true,
                partition_eof_enabled: false,
            }),
            r matches Err(e) ==> Option::Some(e) == consumer_flaw(
                (ConsumerConfig {
                    connection,
                    group_id,
                    topics,
                    session_timeout_ms: DEFAULT_SESSION_TIMEOUT_MS,
                    auto_commit: true,
                    partition_eof_enabled: false,
                }),
            ),
    {
        let c = ConsumerConfig {
            connection,
            group_id,
            topics,
            session_timeout_ms: DEFAULT_SESSION_TIMEOUT_MS,
            auto_commit: true,
            partition_eof_enabled: false,
        };
        match c.validate() {
            Result::Ok(()) => Result::Ok(c),
            Result::Err(e) => Result::Err(e),
        }
    }

    /// Reports the first fault of this configuration, or nothing when it is
    /// acceptable.
    pub fn validate(&self) -> (r: Result<(), ConfigError>)
        ensures
            r is Ok <==> consumer_ok(*self),
            r matches Err(e) ==> Option::Some(e) == consumer_flaw(*self),
    {
        match self.connection.validate() {
            Result::Ok(()) => {},
            Result::Err(e) => {
                return Result::Err(e);
            },
        }
        if self.group_id.as_str().is_empty() {
            return Result::Err(ConfigError::EmptyGroupId);
        }
        if self.topics.len() == 0 {
            return Result::Err(ConfigError::EmptyTopicSet);
        }
        Result::Ok(())
    }
}

impl ProducerConfig {
    /// Builds a producer configuration over a connection configuration,
    /// failing fast on the first fault. The delivery timeout takes its
    /// default value.
    pub fn new(connection: ConnectionConfig) -> (r: Result<ProducerConfig, ConfigError>)
        ensures
            r is Ok <==> connection_ok(connection),
            r matches Ok(c) ==> c == (ProducerConfig {
                connection,
                delivery_timeout_ms: DEFAULT_DELIVERY_TIMEOUT_MS,
            }),
            r matches Err(e) ==> Option::Some(e) == connection_flaw(connection),
    {
        match connection.validate() {
            Result::Ok(()) => Result::Ok(
                ProducerConfig { connection, delivery_timeout_ms: DEFAULT_DELIVERY_TIMEOUT_MS },
            ),
            Result::Err(e) => Result::Err(e),
        }
    }
}

/// The text of a boolean setting value.
pub open spec fn bool_text(b: bool) -> Seq<char> {
    if b {
        "true"@
    } else {
        "false"@
    }
}

/// The value of the security-protocol setting for a security mode.
pub open spec fn security_protocol_text(m: SecurityMode) -> Seq<char> {
    match m {
        SecurityMode::Plaintext => "PLAINTEXT"@,
        SecurityMode::MutualTls => "SSL"@,
    }
}

/// The TLS settings a connection configuration contributes: the three
/// material paths and the verification flag under mutual TLS, nothing
/// otherwise.
pub open spec fn tls_settings(c: ConnectionConfig) -> Seq<(Seq<char>, Seq<char>)> {
    if c.security_mode is MutualTls {
        seq![
            ("ssl.ca.location"@, path_text(c.ca_path)),
            ("ssl.key.location"@, path_text(c.key_path)),
            ("ssl.certificate.location"@, path_text(c.cert_path)),
            ("enable.ssl.certificate.verification"@, bool_text(c.verify_server_cert)),
        ]
    } else {
        Seq::empty()
    }
}

/// The full ordered settings listing the consumer role hands to the
/// underlying client.
pub open spec fn consumer_settings(c: ConsumerConfig) -> Seq<(Seq<char>, Seq<char>)> {
    seq![
        ("group.id"@, c.group_id@),
        ("bootstrap.servers"@, join_with(c.connection.brokers.deep_view(), ","@)),
        ("enable.partition.eof"@, bool_text(c.partition_eof_enabled)),
        ("session.timeout.ms"@, dec_nat(c.session_timeout_ms as nat)),
        ("enable.auto.commit"@, bool_text(c.auto_commit)),
        ("security.protocol"@, security_protocol_text(c.connection.security_mode)),
    ] + tls_settings(c.connection)
}

/// The full ordered settings listing the producer role hands to the
/// underlying client.
pub open spec fn producer_settings(c: ProducerConfig) -> Seq<(Seq<char>, Seq<char>)> {
    seq![
        ("bootstrap.servers"@, join_with(c.connection.brokers.deep_view(), ","@)),
        ("message.timeout.ms"@, dec_nat(c.delivery_timeout_ms as nat)),
        ("security.protocol"@, security_protocol_text(c.connection.security_mode)),
    ] + tls_settings(c.connection)
}

fn bool_to_text(b: bool) -> (r: String)
    ensures
        r@ == bool_text(b),
{
    if b {
        String::from_str("true")
    } else {
        String::from_str("false")
    }
}

fn security_protocol_name(m: SecurityMode) -> (r: String)
    ensures
        r@ == security_protocol_text(m),
{
    match m {
        SecurityMode::Plaintext => String::from_str("PLAINTEXT"),
        SecurityMode::MutualTls => String::from_str("SSL"),
    }
}

fn path_or_empty(p: &Option<String>) -> (r: String)
    ensures
        r@ == path_text(*p),
{
    match p {
        Option::Some(s) => s.clone(),
        Option::None => String::new(),
    }
}

fn push_tls_settings(r: &mut Vec<(String, String)>, c: &ConnectionConfig)
    ensures
        final(r).deep_view() == old(r).deep_view() + tls_settings(*c),
{
    match c.security_mode {
        SecurityMode::MutualTls => {
            r.push((String::from_str("ssl.ca.location"), path_or_empty(&c.ca_path)));
            r.push((String::from_str("ssl.key.location"), path_or_empty(&c.key_path)));
            r.push((String::from_str("ssl.certificate.location"), path_or_empty(&c.cert_path)));
            r.push(
                (
                    String::from_str("enable.ssl.certificate.verification"),
                    bool_to_text(c.verify_server_cert),
                ),
            );
            proof {
                assert(r.deep_view() =~~= old(r).deep_view() + tls_settings(*c));
            }
        },
        SecurityMode::Plaintext => {
            proof {
                assert(r.deep_view() =~~= old(r).deep_view() + tls_settings(*c));
            }
        },
    }
}

/// The settings the consumer role hands to the underlying client, in the
/// order they are applied.
pub fn consumer_client_settings(cfg: &ConsumerConfig) -> (r: Vec<(String, String)>)
    ensures
        r.deep_view() == consumer_settings(*cfg),
{
    let mut r: Vec<(String, String)> = Vec::new();
    r.push((String::from_str("group.id"), cfg.group_id.clone()));
    r.push((String::from_str("bootstrap.servers"), join_strings(&cfg.connection.brokers, ",")));
    r.push((String::from_str("enable.partition.eof"), bool_to_text(cfg.partition_eof_enabled)));
    r.push((String::from_str("session.timeout.ms"), u64_to_dec(cfg.session_timeout_ms)));
    r.push((String::from_str("enable.auto.commit"), bool_to_text(cfg.auto_commit)));
    r.push(
        (
            String::from_str("security.protocol"),
            security_protocol_name(cfg.connection.security_mode),
        ),
    );
    push_tls_settings(&mut r, &cfg.connection);
    proof {
        assert(r.deep_view() =~~= consumer_settings(*cfg));
    }
    r
}

/// The settings the producer role hands to the underlying client, in the
/// order they are applied.
pub fn producer_client_settings(cfg: &ProducerConfig) -> (r: Vec<(String, String)>)
    ensures
        r.deep_view() == producer_settings(*cfg),
{
    let mut r: Vec<(String, String)> = Vec::new();
    r.push((String::from_str("bootstrap.servers"), join_strings(&cfg.connection.brokers, ",")));
    r.push((String::from_str("message.timeout.ms"), u64_to_dec(cfg.delivery_timeout_ms)));
    r.push(
        (
            String::from_str("security.protocol"),
            security_protocol_name(cfg.connection.security_mode),
        ),
    );
    push_tls_settings(&mut r, &cfg.connection);
    proof {
        assert(r.deep_view() =~~= producer_settings(*cfg));
    }
    r
}

} // verus!
