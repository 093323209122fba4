[package]
name = "hub_core"
version = "0.1.0"
edition = "2021"
publish = false

[dependencies]
anyhow = "=1.0.104"
backon = "=0.4.4"
bs58 = "=0.5.1"
chrono = "=0.4.45"
cid = "=0.11.3"
clap = { version = "=4.6.7", features = ["derive", "env"] }
dotenv = "=0.15.0"
futures-util = "=0.3.34"
hostname = "=0.3.1"
num_cpus = "=1.17.0"
proc-macro2 = "=1.0.107"
prost = "=0.11.9"
quote = "=1.0.47"
rand = "=0.8.8"
rdkafka = { version = "=0.33.2", default-features = false, features = ["tokio"] }
reqwest = { version = "=0.11.27", default-features = false, features = ["stream"] }
jsonrpsee-core = "0.19"
sea-orm = { version = "0.12", default-features = false }
serde = { version = "=1.0.229", features = ["derive"] }
sha2 = "=0.10.9"
strum = { version = "=0.25.0", features = ["derive"] }
syn = { version = "=2.0.119", features = ["full"] }
tempfile = "=3.27.0"
thiserror = "=1.0.69"
tokio = { version = "=1.54.1", features = ["rt-multi-thread", "macros", "time", "fs", "io-util", "sync"] }
toml = "=0.7.8"
tracing = "=0.1.44"
tracing-subscriber = { version = "=0.3.23", features = ["env-filter"] }
url = "=2.5.8"
uuid = "=1.29.0"
