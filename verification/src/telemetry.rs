//! Telemetry settings: which trace and metrics exporters to install, where
//! the Prometheus endpoint listens, which protocol the OTLP exporter speaks,
//! and which requests the metrics endpoint answers.
use vstd::prelude::*;

use crate::chronos_config::{read_or, var_or};
use crate::env::EnvVars;
use crate::text::{contains_str, copy_str, decimal, parse_u16, parse_u16_spec, push_char, push_decimal, seq_contains};

verus! {

/// The trace exporter to install.
#[derive(Debug, Clone, Copy, PartialEq, Eq, Structural)]
pub enum TracesExporterType {
    Otlp,
    NoOp,
}

/// The metrics exporter to install.
#[derive(Debug, Clone, Copy, PartialEq, Eq, Structural)]
pub enum MetricsExporterType {
    Prometheus,
    NoOp,
}

/// The exporters and the service name of this process.
pub struct TelemetryCollector {
    pub traces_collector_type: TracesExporterType,
    pub metrics_collector_type: MetricsExporterType,
    pub service_name: String,
}

/// The trace exporter named by a value of `OTEL_TRACES_EXPORTER`, if it is
/// one this service knows.
pub open spec fn traces_exporter_named(value: Seq<char>) -> Option<TracesExporterType> {
    if value == "none"@ {
        Some(TracesExporterType::NoOp)
    } else if value == "otlp"@ {
        Some(TracesExporterType::Otlp)
    } else {
        None
    }
}

/// The metrics exporter named by a value of `OTEL_METRICS_EXPORTER`, if it
/// is one this service knows.
pub open spec fn metrics_exporter_named(value: Seq<char>) -> Option<MetricsExporterType> {
    if value == "none"@ {
        Some(MetricsExporterType::NoOp)
    } else if value == "prometheus"@ {
        Some(MetricsExporterType::Prometheus)
    } else {
        None
    }
}

/// Reads a trace exporter name (see `traces_exporter_named`).
pub fn parse_traces_exporter(value: &str) -> (res: Option<TracesExporterType>)
    ensures
        res == traces_exporter_named(value@),
{
    let v = copy_str(value);
    if v == copy_str("none") {
        Some(TracesExporterType::NoOp)
    } else if v == copy_str("otlp") {
        Some(TracesExporterType::Otlp)
    } else {
        None
    }
}

/// Reads a metrics exporter name (see `metrics_exporter_named`).
pub fn parse_metrics_exporter(value: &str) -> (res: Option<MetricsExporterType>)
    ensures
        res == metrics_exporter_named(value@),
{
    let v = copy_str(value);
    if v == copy_str("none") {
        Some(MetricsExporterType::NoOp)
    } else if v == copy_str("prometheus") {
        Some(MetricsExporterType::Prometheus)
    } else {
        None
    }
}

impl TelemetryCollector {
    /// Reads `OTEL_TRACES_EXPORTER` and `OTEL_METRICS_EXPORTER` (default
    /// `none`; an unknown name counts as `none`) and `OTEL_SERVICE_NAME`
    /// (default `chronos`).
    pub fn new(env: &EnvVars) -> (res: TelemetryCollector)
        ensures
            res.traces_collector_type == match traces_exporter_named(
                var_or(*env, "OTEL_TRACES_EXPORTER"@, "none"@),
            ) {
                Some(t) => t,
                None => TracesExporterType::NoOp,
            },
            res.metrics_collector_type == match metrics_exporter_named(
                var_or(*env, "OTEL_METRICS_EXPORTER"@, "none"@),
            ) {
                Some(m) => m,
                None => MetricsExporterType::NoOp,
            },
            res.service_name@ == var_or(*env, "OTEL_SERVICE_NAME"@, "chronos"@),
    {
        let trace_exporter = read_or(env, "OTEL_TRACES_EXPORTER", "none");
        let traces_collector_type = match parse_traces_exporter(trace_exporter.as_str()) {
            Some(t) => t,
            None => TracesExporterType::NoOp,
        };
        let metrics_exporter = read_or(env, "OTEL_METRICS_EXPORTER", "none");
        let metrics_collector_type = match parse_metrics_exporter(metrics_exporter.as_str()) {
            Some(m) => m,
            None => MetricsExporterType::NoOp,
        };
        let service_name = read_or(env, "OTEL_SERVICE_NAME", "chronos");
        TelemetryCollector { traces_collector_type, metrics_collector_type, service_name }
    }
}

/// The host of the Prometheus endpoint when none is configured.
pub open spec fn default_prometheus_host() -> Seq<char> {
    "localhost"@
}

/// The port of the Prometheus endpoint when none is configured.
pub const DEFAULT_PROMETHEUS_PORT: u16 = 9464;

/// Where the Prometheus endpoint listens.
#[derive(Debug, PartialEq, Eq)]
pub struct PrometheusConfig {
    pub host: String,
    pub port: u16,
}

/// The port read from a variable: its value as a `u16`, or the default
/// when it is unset or not a port number.
pub open spec fn port_setting(env: EnvVars, name: Seq<char>) -> u16 {
    match env.var(name) {
        Some(v) => match parse_u16_spec(v) {
            Some(p) => p,
            None => DEFAULT_PROMETHEUS_PORT,
        },
        None => DEFAULT_PROMETHEUS_PORT,
    }
}

fn read_port(env: &EnvVars, name: &str) -> (res: u16)
    ensures
        res == port_setting(*env, name@),
{
    match env.get(name) {
        Some(v) => match parse_u16(v.as_str()) {
            Some(p) => p,
            None => DEFAULT_PROMETHEUS_PORT,
        },
        None => DEFAULT_PROMETHEUS_PORT,
    }
}

impl PrometheusConfig {
    /// Reads `OTEL_EXPORTER_PROMETHEUS_HOST` (default `localhost`, also when
    /// empty) and `OTEL_EXPORTER_PROMETHEUS_PORT` (default 9464, also when
    /// it is not a port number).
    pub fn from_env(env: &EnvVars) -> (res: PrometheusConfig)
        ensures
            res.host@ == match env.var("OTEL_EXPORTER_PROMETHEUS_HOST"@) {
                Some(h) => if h.len() == 0 {
                    default_prometheus_host()
                } else {
                    h
                },
                None => default_prometheus_host(),
            },
            res.port == port_setting(*env, "OTEL_EXPORTER_PROMETHEUS_PORT"@),
    {
        let host = match env.get("OTEL_EXPORTER_PROMETHEUS_HOST") {
            Some(h) => if h.as_str().is_empty() {
                copy_str("localhost")
            } else {
                h
            },
            None => copy_str("localhost"),
        };
        let port = read_port(env, "OTEL_EXPORTER_PROMETHEUS_PORT");
        PrometheusConfig { host, port }
    }

    /// `host:port`.
    pub fn address(&self) -> (res: String)
        ensures
            res@ == self.host@.push(':') + decimal(self.port as nat),
    {
        let mut s = self.host.clone();
        push_char(&mut s, ':');
        push_decimal(&mut s, self.port as u64);
        s
    }
}

/// The exporter that serves the metrics to Prometheus over HTTP.
pub struct PrometheusExporter {}

impl PrometheusExporter {
    pub fn new() -> (res: PrometheusExporter)
        ensures
            res == (PrometheusExporter {}),
    {
        PrometheusExporter {  }
    }

    /// Where the exporter's web server listens: the host of
    /// `OTEL_EXPORTER_PROMETHEUS_HOST` as it stands (default `localhost`)
    /// and the port of `OTEL_EXPORTER_PROMETHEUS_PORT` (default 9464, also
    /// when it is not a port number).
    pub fn listen_address(env: &EnvVars) -> (res: (String, u16))
        ensures
            res.0@ == var_or(*env, "OTEL_EXPORTER_PROMETHEUS_HOST"@, default_prometheus_host()),
            res.1 == port_setting(*env, "OTEL_EXPORTER_PROMETHEUS_PORT"@),
    {
        (
            read_or(env, "OTEL_EXPORTER_PROMETHEUS_HOST", "localhost"),
            read_port(env, "OTEL_EXPORTER_PROMETHEUS_PORT"),
        )
    }
}

/// What the metrics endpoint answers.
#[derive(Debug, Clone, Copy, PartialEq, Eq, Structural)]
pub enum MetricsRoute {
    /// The encoded metrics.
    Metrics,
    /// 404.
    NotFound,
}

/// `GET /metrics` is answered with the metrics; anything else is not found.
pub fn metrics_route(method: &str, path: &str) -> (res: MetricsRoute)
    ensures
        res == (if method@ == "GET"@ && path@ == "/metrics"@ {
            MetricsRoute::Metrics
        } else {
            MetricsRoute::NotFound
        }),
{
    if copy_str(method) == copy_str("GET") && copy_str(path) == copy_str("/metrics") {
        MetricsRoute::Metrics
    } else {
        MetricsRoute::NotFound
    }
}

/// What `str::to_lowercase` makes of a text.
pub uninterp spec fn lowercase(text: Seq<char>) -> Seq<char>;

/// `str::to_lowercase` (Unicode lower case, which may change the length).
#[verifier::external_body]
fn to_lowercase(text: &str) -> (res: String)
    ensures
        res@ == lowercase(text@),
{
    text.to_lowercase()
}

/// Whether the OTLP exporter speaks gRPC: `OTEL_EXPORTER_OTLP_PROTOCOL`
/// (default `grpc`), in lower case, contains `grpc`; else it speaks HTTP.
pub fn otlp_uses_grpc(env: &EnvVars) -> (res: bool)
    ensures
        res == seq_contains(
            lowercase(var_or(*env, "OTEL_EXPORTER_OTLP_PROTOCOL"@, "grpc"@)),
            "grpc"@,
        ),
{
    let protocol = read_or(env, "OTEL_EXPORTER_OTLP_PROTOCOL", "grpc");
    let lower = to_lowercase(protocol.as_str());
    contains_str(lower.as_str(), "grpc")
}

} // verus!
