[package]
name = "chronos"
version = "0.1.0"
edition = "2021"
publish = false

[dependencies]
rdkafka = "=0.36.2"
rand = "=0.8.8"
chrono = "=0.4.45"
serde_json = "=1.0.154"
uuid = { version = "=1.29.0", features = ["v4"] }
tokio = { version = "=1.54.1", features = ["full"] }
tokio-postgres = { version = "=0.7.18", features = ["with-chrono-0_4", "with-serde_json-1", "with-uuid-1"] }
deadpool-postgres = "=0.14.2"
log = "=0.4.35"
dotenvy = "=0.15.7"
futures = "=0.3.34"
thiserror = "=2.0.21"
anyhow = "=1.0.104"
opentelemetry = "=0.28.0"
opentelemetry_sdk = "=0.28.0"
opentelemetry-otlp = { version = "=0.28.0", features = ["grpc-tonic"] }
opentelemetry-prometheus = "=0.28.0"
prometheus = "=0.13.4"
tracing = "=0.1.44"
tracing-subscriber = { version = "=0.3.23", features = ["env-filter"] }
tracing-opentelemetry = "=0.29.0"
axum = "=0.8.9"
prometheus-client = "=0.23.1"
hyper = { version = "=1.12.0", features = ["server", "http1", "http2"] }
hyper-util = { version = "=0.1.21", features = ["full"] }
http-body-util = "=0.1.5"
