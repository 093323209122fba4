use hub_core::client::KafkaLogLevel;
use hub_core::runtime::{
    default_log_filter, env_files, exit_code, kafka_config, kafka_log_level, security_protocol,
    worker_threads, Common, CommonArgs, LogFilter, Outcome, StartConfig,
};
use hub_core::util::DebugShim;
use rdkafka::config::RDKafkaLogLevel;

fn args(username: Option<&str>, password: Option<&str>, ssl: bool) -> CommonArgs {
    CommonArgs {
        jobs: None,
        kafka_brokers: "broker-1:9092,broker-2:9092".into(),
        kafka_username: username.map(Into::into),
        kafka_password: password.map(|p| DebugShim(p.to_string())),
        kafka_ssl: ssl,
        credit_sheet: "credits.toml".into(),
        asset_cdn: "https://assets.example.com".into(),
    }
}

#[test]
fn plain_config_has_two_entries() {
    let a = args(None, None, false);
    let config = kafka_config(
        &a.kafka_brokers,
        &a.kafka_username,
        &a.kafka_password,
        a.kafka_ssl,
        LogFilter::Info,
    );
    assert_eq!(config.get("bootstrap.servers"), Some("broker-1:9092,broker-2:9092"));
    assert_eq!(config.get("security.protocol"), Some("PLAINTEXT"));
    assert_eq!(config.config_map().len(), 2);
    assert!(matches!(config.log_level, RDKafkaLogLevel::Info));
}

#[test]
fn sasl_config_has_credentials() {
    let a = args(Some("user"), Some("secret"), true);
    let config = kafka_config(
        &a.kafka_brokers,
        &a.kafka_username,
        &a.kafka_password,
        a.kafka_ssl,
        LogFilter::Off,
    );
    assert_eq!(config.get("sasl.mechanism"), Some("SCRAM-SHA-512"));
    assert_eq!(config.get("sasl.username"), Some("user"));
    assert_eq!(config.get("sasl.password"), Some("secret"));
    assert_eq!(config.get("security.protocol"), Some("SASL_SSL"));
    assert_eq!(config.config_map().len(), 5);
    assert!(matches!(config.log_level, RDKafkaLogLevel::Critical));
}

#[test]
fn half_credentials_are_none() {
    let a = args(Some("user"), None, true);
    let config = kafka_config(
        &a.kafka_brokers,
        &a.kafka_username,
        &a.kafka_password,
        a.kafka_ssl,
        LogFilter::Trace,
    );
    assert_eq!(config.get("security.protocol"), Some("SSL"));
    assert_eq!(config.get("sasl.username"), None);
    assert_eq!(config.config_map().len(), 2);
    assert!(matches!(config.log_level, RDKafkaLogLevel::Debug));
}

#[test]
fn security_protocols() {
    assert_eq!(security_protocol(true, true), "SASL_SSL");
    assert_eq!(security_protocol(true, false), "SASL_PLAINTEXT");
    assert_eq!(security_protocol(false, true), "SSL");
    assert_eq!(security_protocol(false, false), "PLAINTEXT");
}

#[test]
fn log_levels() {
    assert_eq!(kafka_log_level(LogFilter::Off), KafkaLogLevel::Critical);
    assert_eq!(kafka_log_level(LogFilter::Error), KafkaLogLevel::Error);
    assert_eq!(kafka_log_level(LogFilter::Warn), KafkaLogLevel::Notice);
    assert_eq!(kafka_log_level(LogFilter::Info), KafkaLogLevel::Info);
    assert_eq!(kafka_log_level(LogFilter::Debug), KafkaLogLevel::Debug);
    assert_eq!(kafka_log_level(LogFilter::Trace), KafkaLogLevel::Debug);
}

#[test]
fn worker_thread_count() {
    assert_eq!(worker_threads(Some(3), 8), 3);
    assert_eq!(worker_threads(None, 8), 8);
    assert_eq!(worker_threads(Some(0), 8), 0);
}

#[test]
fn common_configures_producer_and_consumer() {
    let mut a = args(Some("user"), Some("secret"), false);
    a.jobs = Some(2);
    let common =
        Common::new(StartConfig { service_name: "orders" }, a, 16, LogFilter::Warn).unwrap();
    assert_eq!(common.worker_threads, 2);
    assert_eq!(common.producer_cfg.topic(), "orders");
    let producer = common.producer_cfg.client_config();
    assert_eq!(producer.get("security.protocol"), Some("SASL_PLAINTEXT"));
    assert_eq!(producer.get("sasl.username"), Some("user"));
    assert!(matches!(producer.log_level, RDKafkaLogLevel::Notice));
    let consumer = common.consumer_cfg.group_config("Group");
    assert_eq!(consumer.get("group.id"), Some("Group@orders"));
    assert_eq!(consumer.get("security.protocol"), Some("SASL_PLAINTEXT"));
    assert_eq!(consumer.get("bootstrap.servers"), Some("broker-1:9092,broker-2:9092"));
    assert!(matches!(consumer.log_level, RDKafkaLogLevel::Notice));
    assert_eq!(common.credits_cfg.credit_sheet(), "credits.toml");
    let credits = common.credits_cfg.client_config();
    assert_eq!(credits.get("sasl.password"), Some("secret"));
    assert_eq!(credits.config_map(), producer.config_map());
}

#[test]
fn common_needs_a_cdn_address() {
    let mut a = args(None, None, true);
    a.asset_cdn = "assets".into();
    let r = Common::new(StartConfig { service_name: "orders" }, a, 16, LogFilter::Warn);
    assert!(matches!(r, Err(hub_core::assets::ProxyError::InvalidCdn(_))));
}

#[test]
fn exit_codes() {
    assert_eq!(exit_code(Outcome::Succeeded), 0);
    assert_eq!(exit_code(Outcome::Failed), 1);
    assert_eq!(exit_code(Outcome::InitFailed), -1);
}

#[test]
fn env_file_order() {
    assert_eq!(env_files(true), [".env.local", ".env.dev", ".env"]);
    assert_eq!(env_files(false), [".env.local", ".env.prod", ".env"]);
    assert_eq!(default_log_filter(true), "debug");
    assert_eq!(default_log_filter(false), "info");
}
