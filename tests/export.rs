use sigma_telemetry::config::TelemetryConfig;
use sigma_telemetry::error::TelemetryError;
use sigma_telemetry::exporter::{ExportFormat, ExportRequest, ExportedSpan, Exporter, OtlpSpan, PostOutcome};
use sigma_telemetry::ryzanstein_integration::RyzansteinTelemetryClient;
use sigma_telemetry::{SpanOperation, SpanRecord, SpanStatus};

fn sample_span() -> SpanRecord {
    SpanRecord {
        name: "test".to_string(),
        service: "ryzanstein".to_string(),
        operation: SpanOperation::Inference,
        start_time: std::time::SystemTime::now(),
        duration: Some(42_000_000),
        attributes: vec![("model".to_string(), "bitnet".to_string())],
        status: SpanStatus::Success,
    }
}

fn text_of(r: ExportRequest) -> String {
    match r {
        ExportRequest::Text(t) => t,
        other => panic!("expected text, got {:?}", other),
    }
}

#[test]
fn test_json_export() {
    let exporter = Exporter::new(TelemetryConfig::default(), ExportFormat::Json);
    let result = text_of(exporter.prepare(&vec![sample_span()]));
    assert!(result.contains("inference"));
    assert!(result.contains("bitnet"));
}

#[test]
fn test_otlp_export_formats_correctly() {
    let exporter = Exporter::new(TelemetryConfig::default(), ExportFormat::Otlp);
    let (endpoint, span_count) = match exporter.prepare(&vec![sample_span()]) {
        ExportRequest::Post { endpoint, span_count, .. } => (endpoint, span_count),
        other => panic!("expected a post, got {:?}", other),
    };
    let result = Exporter::complete(span_count, &endpoint, PostOutcome::Failed("connection refused".to_string()));
    match result {
        Ok(msg) => assert!(msg.contains("spans")),
        Err(e) => {
            let err_msg = e.message();
            assert!(
                err_msg.contains("localhost:4317") || err_msg.contains("OTLP"),
                "Unexpected error: {err_msg}"
            );
        }
    }
}

#[test]
fn test_exported_span_conversion() {
    let span = sample_span();
    let exported = ExportedSpan::from_record(&span);
    assert_eq!(exported.operation, "inference");
    assert_eq!(exported.status, "ok");
    assert!(exported.duration_nanos.unwrap() > 0);
}

#[test]
fn json_export_round_trips() {
    let mut failed = sample_span();
    failed.name = "with \"quotes\"\n".to_string();
    failed.operation = SpanOperation::Custom("x".to_string());
    failed.status = SpanStatus::Error("bad".to_string());
    failed.duration = None;
    failed.attributes = vec![];
    let spans = vec![sample_span(), failed];
    let exporter = Exporter::new(TelemetryConfig::default(), ExportFormat::Stdout);
    let text = text_of(exporter.prepare(&spans));
    let parsed: serde_json::Value = serde_json::from_str(&text).unwrap();
    let arr = parsed.as_array().unwrap();
    assert_eq!(arr.len(), 2);
    assert_eq!(arr[0]["name"], "test");
    assert_eq!(arr[0]["service"], "ryzanstein");
    assert_eq!(arr[0]["operation"], "inference");
    assert_eq!(arr[0]["status"], "ok");
    assert_eq!(arr[0]["duration_ms"].as_f64().unwrap(), 42.0);
    assert_eq!(arr[0]["attributes"][0][0], "model");
    assert_eq!(arr[0]["attributes"][0][1], "bitnet");
    assert_eq!(arr[1]["name"], "with \"quotes\"\n");
    assert_eq!(arr[1]["operation"], "custom.x");
    assert_eq!(arr[1]["status"], "error: bad");
    assert!(arr[1]["duration_ms"].is_null());
    assert_eq!(arr[1]["attributes"].as_array().unwrap().len(), 0);
}

#[test]
fn json_export_of_no_spans_is_empty_array() {
    let exporter = Exporter::new(TelemetryConfig::default(), ExportFormat::Json);
    assert_eq!(text_of(exporter.prepare(&vec![])), "[]");
}

#[test]
fn json_export_layout() {
    let exporter = Exporter::new(TelemetryConfig::default(), ExportFormat::Json);
    let text = text_of(exporter.prepare(&vec![sample_span()]));
    let expected = "[\n  {\n    \"name\": \"test\",\n    \"service\": \"ryzanstein\",\n    \"operation\": \"inference\",\n    \"duration_ms\": 42.000000,\n    \"status\": \"ok\",\n    \"attributes\": [\n      [\n        \"model\",\n        \"bitnet\"\n      ]\n    ]\n  }\n]";
    assert_eq!(text, expected);
}

#[test]
fn otlp_document_shape_and_codes() {
    let mut failed = sample_span();
    failed.status = SpanStatus::Error("oops".to_string());
    failed.duration = Some(1_500);
    let mut open = sample_span();
    open.duration = None;
    let exporter = Exporter::new(TelemetryConfig::default(), ExportFormat::Otlp);
    let (endpoint, body, span_count) = match exporter.prepare(&vec![sample_span(), failed, open]) {
        ExportRequest::Post { endpoint, body, span_count } => (endpoint, body, span_count),
        other => panic!("expected a post, got {:?}", other),
    };
    assert_eq!(endpoint, "http://localhost:4317/v1/traces");
    assert_eq!(span_count, 3);
    let doc: serde_json::Value = serde_json::from_str(&body).unwrap();
    let rs = &doc["resourceSpans"][0];
    assert_eq!(rs["resource"]["attributes"][0]["key"], "service.name");
    assert_eq!(rs["resource"]["attributes"][0]["value"]["stringValue"], "ryzanstein");
    let scope = &rs["scopeSpans"][0];
    assert_eq!(scope["scope"]["name"], "sigma-telemetry");
    assert_eq!(scope["scope"]["version"], "0.1.0");
    let spans = scope["spans"].as_array().unwrap();
    assert_eq!(spans.len(), 3);
    assert_eq!(spans[0]["name"], "test");
    assert_eq!(spans[0]["kind"], 1);
    assert_eq!(spans[0]["attributes"][0]["key"], "model");
    assert_eq!(spans[0]["attributes"][0]["value"]["stringValue"], "bitnet");
    assert_eq!(spans[0]["status"]["code"], 1);
    assert_eq!(spans[0]["status"]["message"], "ok");
    assert_eq!(spans[0]["durationNanos"], 42_000_000u64);
    assert_eq!(spans[1]["status"]["code"], 2);
    assert_eq!(spans[1]["status"]["message"], "error: oops");
    assert_eq!(spans[1]["durationNanos"], 1_500u64);
    assert_eq!(spans[2]["durationNanos"], 0u64);
}

#[test]
fn otlp_span_from_record() {
    let mut span = sample_span();
    span.status = SpanStatus::Unset;
    let entry = OtlpSpan::from_record(&span);
    assert_eq!(entry.kind, 1);
    assert_eq!(entry.status_code, 1);
    assert_eq!(entry.status_message, "unset");
    assert_eq!(entry.duration_nanos, 42_000_000);
}

#[test]
fn post_outcomes_map_to_results() {
    let ok = Exporter::complete(3, "http://c/v1/traces", PostOutcome::Responded {
        code: 204,
        reason: "No Content".to_string(),
        body: String::new(),
    });
    assert_eq!(ok, Ok("Exported 3 spans to http://c/v1/traces".to_string()));
    let rejected = Exporter::complete(3, "http://c/v1/traces", PostOutcome::Responded {
        code: 503,
        reason: "Service Unavailable".to_string(),
        body: "busy".to_string(),
    });
    assert_eq!(
        rejected,
        Err(TelemetryError::ExportError("OTLP endpoint returned 503 Service Unavailable: busy".to_string()))
    );
    let failed = Exporter::complete(0, "http://c/v1/traces", PostOutcome::Failed("timed out".to_string()));
    assert_eq!(
        failed,
        Err(TelemetryError::ExportError("Failed to reach OTLP endpoint http://c/v1/traces: timed out".to_string()))
    );
}

#[test]
fn error_messages() {
    let cases = [
        (TelemetryError::ConfigError("a".to_string()), "Configuration error: a"),
        (TelemetryError::ExportError("b".to_string()), "Export error: b"),
        (TelemetryError::SpanError("c".to_string()), "Span error: c"),
        (TelemetryError::MetricError("d".to_string()), "Metric error: d"),
        (TelemetryError::RyzansteinError("e".to_string()), "Ryzanstein connection error: e"),
        (TelemetryError::IoError("f".to_string()), "IO error: f"),
        (TelemetryError::SerializationError("g".to_string()), "Serialization error: g"),
    ];
    for (e, text) in cases {
        assert_eq!(e.message(), text);
    }
}

#[test]
fn test_client_creation() {
    let client = RyzansteinTelemetryClient::new(&TelemetryConfig::default());
    assert_eq!(client.base_url, "http://localhost:8000");
    assert_eq!(client.health_url(), "http://localhost:8000/health");
    assert_eq!(client.telemetry_url(), "http://localhost:8000/v1/telemetry");
}

#[test]
fn test_fallback_health() {
    let health = RyzansteinTelemetryClient::fallback_health();
    assert_eq!(health.status, "unavailable");
    assert!(!health.model_loaded);
    assert_eq!(health.inference_count, 0);
    assert_eq!(health.uptime_ms, 0);
}

#[test]
fn default_config_values() {
    let c = TelemetryConfig::default();
    assert_eq!(c.otlp_endpoint, "http://localhost:4317");
    assert_eq!(c.sampling_rate_ppm, 1_000_000);
    assert!(c.metrics_enabled && c.traces_enabled);
    assert_eq!(c.export_interval_secs, 10);
    assert_eq!(c.max_buffer_size, 1024);
}
