//! Service startup: what the command line and the environment amount to.
//!
//! Reading the environment, parsing arguments and starting the async runtime
//! are the caller's; what is decided here is what the broker clients are
//! configured with and how the process reports its end.

use vstd::prelude::*;
use rdkafka::ClientConfig;
use crate::client::{
    clone_config,
    entries,
    log_level,
    new_config,
    set_log_level,
    set_param,
    KafkaLogLevel,
};
use crate::assets::{AssetProxy, ProxyError};
use crate::consumer;
use crate::credits;
use crate::producer;
use crate::web::parsed;
use crate::util::DebugShim;

verus! {

/// Initial parameters for booting a service
#[derive(Debug)]
pub struct StartConfig {
    /// The name of this service, used as an identifier in logs and event
    /// buses
    pub service_name: &'static str,
}

/// The most verbose level of logging that is enabled for the process.
#[derive(Debug, Clone, Copy, PartialEq, Eq, Structural, Hash)]
pub enum LogFilter {
    Off,
    Error,
    Warn,
    Info,
    Debug,
    Trace,
}

/// The arguments common to all services that bear on the broker clients.
pub struct CommonArgs {
    /// The capacity of the async thread pool
    pub jobs: Option<usize>,
    /// The Kafka broker list
    pub kafka_brokers: String,
    /// Kafka SASL username
    pub kafka_username: Option<String>,
    /// Kafka SASL password
    pub kafka_password: Option<DebugShim<String>>,
    /// Whether to use SSL Kafka channels
    pub kafka_ssl: bool,
    /// Path to the credit price sheet TOML configuration file
    pub credit_sheet: String,
    /// The address of the asset CDN
    pub asset_cdn: String,
}

/// Common data passed into the program entry point
#[derive(Debug)]
#[non_exhaustive]
pub struct Common {
    /// The number of worker threads, and of blocking threads, of the async
    /// runtime
    pub worker_threads: usize,
    /// Configuration for creating a Kafka message producer for this service
    pub producer_cfg: producer::Config,
    /// Configuration for creating a Kafka message consumer for this service
    pub consumer_cfg: consumer::Config,
    /// Configuration for consuming and producing credit costs
    pub credits_cfg: credits::Config,
    /// An IPFS asset proxy
    pub asset_proxy: AssetProxy,
}

/// The log level of the broker client under a log filter: the client logs
/// at the level of the filter, and where the filter is off only what is
/// critical.
pub open spec fn kafka_log_level_spec(filter: LogFilter) -> KafkaLogLevel {
    match filter {
        LogFilter::Off => KafkaLogLevel::Critical,
        LogFilter::Error => KafkaLogLevel::Error,
        LogFilter::Warn => KafkaLogLevel::Notice,
        LogFilter::Info => KafkaLogLevel::Info,
        LogFilter::Debug | LogFilter::Trace => KafkaLogLevel::Debug,
    }
}

/// The log level of the broker client under a log filter.
pub fn kafka_log_level(filter: LogFilter) -> (level: KafkaLogLevel)
    ensures
        level == kafka_log_level_spec(filter),
{
    match filter {
        LogFilter::Off => KafkaLogLevel::Critical,
        LogFilter::Error => KafkaLogLevel::Error,
        LogFilter::Warn => KafkaLogLevel::Notice,
        LogFilter::Info => KafkaLogLevel::Info,
        LogFilter::Debug | LogFilter::Trace => KafkaLogLevel::Debug,
    }
}

/// The security protocol of the broker clients: SASL where credentials are
/// given, over SSL where it is asked for.
pub fn security_protocol(sasl: bool, ssl: bool) -> (protocol: &'static str)
    ensures
        protocol@ == security_protocol_spec(sasl, ssl),
{
    if sasl {
        if ssl {
            "SASL_SSL"
        } else {
            "SASL_PLAINTEXT"
        }
    } else {
        if ssl {
            "SSL"
        } else {
            "PLAINTEXT"
        }
    }
}

/// The name of the security protocol of the broker clients.
pub open spec fn security_protocol_spec(sasl: bool, ssl: bool) -> Seq<char> {
    if sasl {
        if ssl {
            "SASL_SSL"@
        } else {
            "SASL_PLAINTEXT"@
        }
    } else {
        if ssl {
            "SSL"@
        } else {
            "PLAINTEXT"@
        }
    }
}

/// The credentials that the broker clients authenticate with: a username and
/// a password, where both are given.
pub open spec fn credentials_spec(
    username: Option<String>,
    password: Option<DebugShim<String>>,
) -> Option<(Seq<char>, Seq<char>)> {
    match (username, password) {
        (Some(user), Some(pass)) => Some((user@, pass.0@)),
        _ => None,
    }
}

/// The parameters that the broker clients are configured with: the broker
/// list, the security protocol, and with credentials the SASL mechanism, the
/// username and the password.
pub open spec fn kafka_entries(
    brokers: Seq<char>,
    credentials: Option<(Seq<char>, Seq<char>)>,
    ssl: bool,
) -> Map<Seq<char>, Seq<char>> {
    let base = Map::<Seq<char>, Seq<char>>::empty().insert("bootstrap.servers"@, brokers);
    match credentials {
        Some((user, pass)) => base.insert("sasl.mechanism"@, "SCRAM-SHA-512"@).insert(
            "sasl.username"@,
            user,
        ).insert("sasl.password"@, pass).insert(
            "security.protocol"@,
            security_protocol_spec(true, ssl),
        ),
        None => base.insert("security.protocol"@, security_protocol_spec(false, ssl)),
    }
}

/// The number of threads of the async runtime: as many as asked for, or one
/// for each processor.
pub fn worker_threads(jobs: Option<usize>, cpus: usize) -> (threads: usize)
    ensures
        threads == match jobs {
            Some(n) => n,
            None => cpus,
        },
{
    match jobs {
        Some(n) => n,
        None => cpus,
    }
}

/// The configuration of the broker clients.
pub fn kafka_config(
    brokers: &str,
    username: &Option<String>,
    password: &Option<DebugShim<String>>,
    ssl: bool,
    filter: LogFilter,
) -> (config: ClientConfig)
    ensures
        entries(config) == kafka_entries(brokers@, credentials_spec(*username, *password), ssl),
        log_level(config) == kafka_log_level_spec(filter),
{
    let mut config = new_config();
    assert(entries(config) =~= Map::<Seq<char>, Seq<char>>::empty());
    set_param(&mut config, "bootstrap.servers", brokers);
    set_log_level(&mut config, kafka_log_level(filter));
    match (username, password) {
        (Some(user), Some(pass)) => {
            set_param(&mut config, "sasl.mechanism", "SCRAM-SHA-512");
            set_param(&mut config, "sasl.username", user.as_str());
            set_param(&mut config, "sasl.password", pass.0.as_str());
            set_param(&mut config, "security.protocol", security_protocol(true, ssl));
        },
        _ => {
            set_param(&mut config, "security.protocol", security_protocol(false, ssl));
        },
    }
    config
}

impl Common {
    /// What a service starts from: the size of the async runtime, the
    /// configurations of the producer, of the consumer and of the credits
    /// client, all three for the same broker clients, and the asset proxy.
    ///
    /// # Errors
    /// This function returns an error if the address of the asset CDN is no
    /// URL.
    pub fn new(cfg: StartConfig, args: CommonArgs, cpus: usize, filter: LogFilter) -> (r: Result<
        Common,
        ProxyError,
    >)
        ensures
            match r {
                Ok(common) => {
                    &&& common.worker_threads == match args.jobs {
                        Some(n) => n,
                        None => cpus,
                    }
                    &&& common.producer_cfg.topic_spec() == cfg.service_name@
                    &&& common.consumer_cfg.service_name_spec() == cfg.service_name@
                    &&& common.credits_cfg.credit_sheet_spec() == args.credit_sheet@
                    &&& entries(common.producer_cfg.client_spec()) == kafka_entries(
                        args.kafka_brokers@,
                        credentials_spec(args.kafka_username, args.kafka_password),
                        args.kafka_ssl,
                    )
                    &&& entries(common.consumer_cfg.client_spec()) == entries(
                        common.producer_cfg.client_spec(),
                    )
                    &&& entries(common.credits_cfg.client_spec()) == entries(
                        common.producer_cfg.client_spec(),
                    )
                    &&& log_level(common.producer_cfg.client_spec()) == kafka_log_level_spec(filter)
                    &&& log_level(common.consumer_cfg.client_spec()) == kafka_log_level_spec(filter)
                    &&& log_level(common.credits_cfg.client_spec()) == kafka_log_level_spec(filter)
                    &&& parsed(args.asset_cdn@) == Some(common.asset_proxy.cdn_text())
                },
                Err(e) => e is InvalidCdn && parsed(args.asset_cdn@) is None,
            },
    {
        let threads = worker_threads(args.jobs, cpus);
        let config = kafka_config(
            args.kafka_brokers.as_str(),
            &args.kafka_username,
            &args.kafka_password,
            args.kafka_ssl,
            filter,
        );
        let credits_cfg = credits::Config::new(args.credit_sheet, clone_config(&config));
        let producer_cfg = producer::Config::new(
            cfg.service_name.to_owned(),
            clone_config(&config),
        );
        let consumer_cfg = consumer::Config::new(cfg.service_name.to_owned(), config);
        match AssetProxy::new(args.asset_cdn.as_str()) {
            Ok(asset_proxy) => Ok(
                Common {
                    worker_threads: threads,
                    producer_cfg,
                    consumer_cfg,
                    credits_cfg,
                    asset_proxy,
                },
            ),
            Err(e) => Err(e),
        }
    }
}

/// How the service's entry point ended.
#[derive(Debug, Clone, Copy, PartialEq, Eq, Structural, Hash)]
pub enum Outcome {
    /// The runtime could not be initialized
    InitFailed,
    /// The entry point returned an error
    Failed,
    /// The entry point returned normally
    Succeeded,
}

/// The status that the process exits with.
pub fn exit_code(outcome: Outcome) -> (code: i32)
    ensures
        code == match outcome {
            Outcome::InitFailed => -1i32,
            Outcome::Failed => 1i32,
            Outcome::Succeeded => 0i32,
        },
{
    match outcome {
        Outcome::InitFailed => -1,
        Outcome::Failed => 1,
        Outcome::Succeeded => 0,
    }
}

/// The `.env` files that are loaded before the arguments are parsed, in the
/// order in which they are loaded: the local one, the one of the build's
/// kind, and the common one.
pub fn env_files(debug: bool) -> (files: [&'static str; 3])
    ensures
        files[0]@ == ".env.local"@,
        files[1]@ == if debug {
            ".env.dev"@
        } else {
            ".env.prod"@
        },
        files[2]@ == ".env"@,
{
    [".env.local", if debug { ".env.dev" } else { ".env.prod" }, ".env"]
}

/// The log filter that holds where none is given.
pub fn default_log_filter(debug: bool) -> (filter: &'static str)
    ensures
        filter@ == if debug {
            "debug"@
        } else {
            "info"@
        },
{
    if debug {
        "debug"
    } else {
        "info"
    }
}

} // verus!
