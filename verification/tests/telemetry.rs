use chronos::env::EnvVars;
use chronos::metrics::{destination_label, status_label, ConsumedMessageDestinations, Status};
use chronos::telemetry::{
    metrics_route, otlp_uses_grpc, parse_metrics_exporter, parse_traces_exporter, MetricsExporterType,
    MetricsRoute, PrometheusConfig, PrometheusExporter, TelemetryCollector, TracesExporterType,
    DEFAULT_PROMETHEUS_PORT,
};

fn env_of(pairs: &[(&str, &str)]) -> EnvVars {
    let mut env = EnvVars::new();
    for (k, v) in pairs {
        env.push(k, v);
    }
    env
}

#[test]
fn test_defaults() {
    let c = TelemetryCollector::new(&env_of(&[]));
    assert_eq!(c.service_name, "chronos".to_string());
    assert!(matches!(c.metrics_collector_type, MetricsExporterType::NoOp));
    assert!(matches!(c.traces_collector_type, TracesExporterType::NoOp));
}

#[test]
fn test_invalid_metrics() {
    let c = TelemetryCollector::new(&env_of(&[("OTEL_METRICS_EXPORTER", "a_very_invalid_exporter")]));
    assert!(matches!(c.metrics_collector_type, MetricsExporterType::NoOp));
}

#[test]
fn test_invalid_tracer() {
    let c = TelemetryCollector::new(&env_of(&[("OTEL_TRACES_EXPORTER", "a_very_invalid_exporter")]));
    assert!(matches!(c.traces_collector_type, TracesExporterType::NoOp));
}

#[test]
fn test_otlp_trace_exporter() {
    let c = TelemetryCollector::new(&env_of(&[("OTEL_TRACES_EXPORTER", "otlp")]));
    assert!(matches!(c.traces_collector_type, TracesExporterType::Otlp));
}

#[test]
fn test_prometheus_exporter() {
    let c = TelemetryCollector::new(&env_of(&[("OTEL_METRICS_EXPORTER", "prometheus")]));
    assert!(matches!(c.metrics_collector_type, MetricsExporterType::Prometheus));
}

#[test]
fn service_name_comes_from_the_environment() {
    let c = TelemetryCollector::new(&env_of(&[("OTEL_SERVICE_NAME", "delayer")]));
    assert_eq!(c.service_name, "delayer");
    assert_eq!(parse_traces_exporter("OTLP"), None);
    assert_eq!(parse_metrics_exporter("none"), Some(MetricsExporterType::NoOp));
}

#[test]
fn config_uses_opentelemetry_defaults() {
    assert_eq!(
        PrometheusConfig::from_env(&env_of(&[])),
        PrometheusConfig {
            host: "localhost".to_string(),
            port: DEFAULT_PROMETHEUS_PORT,
        }
    );
}

#[test]
fn config_uses_opentelemetry_overrides() {
    let env = env_of(&[("OTEL_EXPORTER_PROMETHEUS_HOST", "0.0.0.0"), ("OTEL_EXPORTER_PROMETHEUS_PORT", "9090")]);
    assert_eq!(
        PrometheusConfig::from_env(&env),
        PrometheusConfig {
            host: "0.0.0.0".to_string(),
            port: 9090,
        }
    );
}

#[test]
fn empty_and_invalid_values_use_defaults() {
    let env = env_of(&[("OTEL_EXPORTER_PROMETHEUS_HOST", ""), ("OTEL_EXPORTER_PROMETHEUS_PORT", "invalid")]);
    assert_eq!(
        PrometheusConfig::from_env(&env),
        PrometheusConfig {
            host: "localhost".to_string(),
            port: 9464,
        }
    );
}

#[test]
fn port_out_of_range_or_signed_uses_default() {
    let env = env_of(&[("OTEL_EXPORTER_PROMETHEUS_PORT", "65536")]);
    assert_eq!(PrometheusConfig::from_env(&env).port, 9464);
    let env = env_of(&[("OTEL_EXPORTER_PROMETHEUS_PORT", "+65535")]);
    assert_eq!(PrometheusConfig::from_env(&env).port, 65535);
    let env = env_of(&[("OTEL_EXPORTER_PROMETHEUS_PORT", "-1")]);
    assert_eq!(PrometheusConfig::from_env(&env).port, 9464);
    let env = env_of(&[("OTEL_EXPORTER_PROMETHEUS_PORT", " 80")]);
    assert_eq!(PrometheusConfig::from_env(&env).port, 9464);
}

#[test]
fn address_is_host_colon_port() {
    let c = PrometheusConfig { host: "example.org".to_string(), port: 80 };
    assert_eq!(c.address(), "example.org:80");
    let c = PrometheusConfig { host: "h".to_string(), port: 0 };
    assert_eq!(c.address(), "h:0");
}

#[test]
fn exporter_listen_address_keeps_an_empty_host() {
    let _ = PrometheusExporter::new();
    let env = env_of(&[("OTEL_EXPORTER_PROMETHEUS_HOST", ""), ("OTEL_EXPORTER_PROMETHEUS_PORT", "1234")]);
    assert_eq!(PrometheusExporter::listen_address(&env), ("".to_string(), 1234));
    assert_eq!(PrometheusExporter::listen_address(&env_of(&[])), ("localhost".to_string(), 9464));
}

#[test]
fn metrics_route_answers_only_get_metrics() {
    assert_eq!(metrics_route("GET", "/"), MetricsRoute::NotFound);
    assert_eq!(metrics_route("GET", "/metrics"), MetricsRoute::Metrics);
    assert_eq!(metrics_route("POST", "/metrics"), MetricsRoute::NotFound);
}

#[test]
fn otlp_protocol_selection_is_case_insensitive() {
    assert!(otlp_uses_grpc(&env_of(&[])));
    assert!(otlp_uses_grpc(&env_of(&[("OTEL_EXPORTER_OTLP_PROTOCOL", "GRPC")])));
    assert!(!otlp_uses_grpc(&env_of(&[("OTEL_EXPORTER_OTLP_PROTOCOL", "http/json")])));
    assert!(!otlp_uses_grpc(&env_of(&[("OTEL_EXPORTER_OTLP_PROTOCOL", "http/protobuf")])));
}

#[test]
fn metric_labels() {
    assert_eq!(destination_label(&ConsumedMessageDestinations::DATABASE), "database");
    assert_eq!(destination_label(&ConsumedMessageDestinations::KAFKA), "kafka");
    assert_eq!(destination_label(&ConsumedMessageDestinations::DROPPED), "dropped");
    assert_eq!(status_label(&Status::ERROR), "error");
    assert_eq!(status_label(&Status::SUCCESS), "success");
}
