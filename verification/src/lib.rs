//! Shared runtime pieces for services that exchange binary records over a
//! partitioned message broker: error triage, the producer's partition-aware
//! delivery decisions and the consumer's supervised handling loop.

pub mod assets;
pub mod backoff;
pub mod client;
pub mod consumer;
pub mod credits;
pub mod producer;
pub mod rule;
pub mod runtime;
pub mod schema;
pub mod triage;
pub mod util;
pub mod web;
