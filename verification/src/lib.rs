//! A delayed-delivery service for Kafka messages: messages that carry a
//! deadline header are either forwarded at once or parked in Postgres until
//! their deadline, then published by a processing loop.
pub mod text;
pub mod env;
pub mod pairs;
pub mod kafka_config;
pub mod headers;
pub mod json;
pub mod metrics;
pub mod receiver;
pub mod retry;
pub mod processor;
pub mod pg_query;
pub mod delay;
pub mod chronos_config;
pub mod telemetry;
pub mod kafka_deploy;
