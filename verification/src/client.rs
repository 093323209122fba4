//! Broker client configuration.
//!
//! The configuration is `rdkafka`'s own; the library fills it and hands it on
//! to whoever creates the clients.

use vstd::prelude::*;
use rdkafka::config::RDKafkaLogLevel;
use rdkafka::ClientConfig;

verus! {

#[verifier::external_type_specification]
#[verifier::external_body]
pub struct ExClientConfig(ClientConfig);

/// The log levels of the broker client.
#[derive(Debug, Clone, Copy, PartialEq, Eq, Structural, Hash)]
pub enum KafkaLogLevel {
    /// The system is unusable
    Emerg,
    /// Action must be taken at once
    Alert,
    /// Of higher priority than an error
    Critical,
    /// An error
    Error,
    /// A warning
    Warning,
    /// Of higher priority than an informational message
    Notice,
    /// An informational message
    Info,
    /// A debugging message
    Debug,
}

/// The parameters that a configuration holds, each under its key.
pub uninterp spec fn entries(config: ClientConfig) -> Map<Seq<char>, Seq<char>>;

/// The log level that a configuration holds.
pub uninterp spec fn log_level(config: ClientConfig) -> KafkaLogLevel;

/// `ClientConfig::new`. Trusted: a new configuration holds no parameter.
/// Nothing is said of its log level, which the client derives from the
/// process's logger.
#[verifier::external_body]
pub(crate) fn new_config() -> (config: ClientConfig)
    ensures
        entries(config).dom() == Set::<Seq<char>>::empty(),
{
    ClientConfig::new()
}

/// `ClientConfig::set`. Trusted: the value then stands under the key, in
/// place of any earlier one, and nothing else changes.
#[verifier::external_body]
pub(crate) fn set_param(config: &mut ClientConfig, key: &str, value: &str)
    ensures
        entries(*final(config)) == entries(*old(config)).insert(key@, value@),
        log_level(*final(config)) == log_level(*old(config)),
{
    config.set(key, value);
}

/// `ClientConfig::set_log_level`. Trusted: the level is then the one given,
/// and the parameters stay as they were.
#[verifier::external_body]
pub(crate) fn set_log_level(config: &mut ClientConfig, level: KafkaLogLevel)
    ensures
        log_level(*final(config)) == level,
        entries(*final(config)) == entries(*old(config)),
{
    config.set_log_level(
        match level {
            KafkaLogLevel::Emerg => RDKafkaLogLevel::Emerg,
            KafkaLogLevel::Alert => RDKafkaLogLevel::Alert,
            KafkaLogLevel::Critical => RDKafkaLogLevel::Critical,
            KafkaLogLevel::Error => RDKafkaLogLevel::Error,
            KafkaLogLevel::Warning => RDKafkaLogLevel::Warning,
            KafkaLogLevel::Notice => RDKafkaLogLevel::Notice,
            KafkaLogLevel::Info => RDKafkaLogLevel::Info,
            KafkaLogLevel::Debug => RDKafkaLogLevel::Debug,
        },
    );
}

/// `Clone::clone` of `ClientConfig`. Trusted: the copy holds what the
/// configuration holds that it was made from.
#[verifier::external_body]
pub(crate) fn clone_config(config: &ClientConfig) -> (copy: ClientConfig)
    ensures
        entries(copy) == entries(*config),
        log_level(copy) == log_level(*config),
{
    config.clone()
}

} // verus!
