use sigma_telemetry::config::TelemetryConfig;
use sigma_telemetry::{SigmaTelemetry, SpanGuard, SpanOperation, SpanStatus};

fn test_telemetry() -> SigmaTelemetry {
    SigmaTelemetry::new(TelemetryConfig::default())
}

#[test]
fn test_new_telemetry() {
    let t = test_telemetry();
    assert_eq!(t.config().service_name, "ryzanstein");
}

#[test]
fn test_span_lifecycle() {
    let mut t = test_telemetry();
    let mut span = t.start_span("test_op", SpanOperation::Inference);
    span.set_attribute("model", "bitnet");
    span.set_ok(&mut t);

    let snap = t.snapshot();
    assert_eq!(snap.span_count, 1);
}

#[test]
fn test_span_error() {
    let mut t = test_telemetry();
    let span = t.start_span("fail", SpanOperation::TokenGeneration);
    span.set_error(&mut t, "decode failure");

    assert_eq!(t.metrics().get_counter("spans.errors"), 1);
}

#[test]
fn test_metrics_counter() {
    let mut t = test_telemetry();
    t.increment("requests");
    t.increment("requests");
    t.increment_by("tokens", 42);
    assert_eq!(t.metrics().get_counter("requests"), 2);
    assert_eq!(t.metrics().get_counter("tokens"), 42);
}

#[test]
fn test_metrics_gauge() {
    let mut t = test_telemetry();
    // 85.5 in thousandths
    t.set_gauge("gpu_utilization", 85_500);
    assert_eq!(t.metrics().get_gauge("gpu_utilization"), Some(85_500));
    assert_eq!(t.metrics().get_gauge("nonexistent"), None);
}

#[test]
fn test_metrics_histogram() {
    let mut t = test_telemetry();
    for v in [10_000, 20_000, 30_000, 40_000, 50_000] {
        t.record_histogram("latency", v);
    }
    let stats = t.metrics().get_histogram_stats("latency").unwrap();
    assert_eq!(stats.count, 5);
    assert!(((stats.mean as f64 / 1000.0) - 30.0).abs() < 0.001);
}

#[test]
fn test_span_operation_display() {
    assert_eq!(SpanOperation::Inference.to_string(), "inference");
    assert_eq!(SpanOperation::ModelLoad.to_string(), "model.load");
    assert_eq!(SpanOperation::Custom("foo".into()).to_string(), "custom.foo");
}

#[test]
fn test_snapshot() {
    let mut t = test_telemetry();
    t.start_span("a", SpanOperation::Inference).set_ok(&mut t);
    t.start_span("b", SpanOperation::ModelLoad).set_ok(&mut t);
    t.increment("reqs");
    t.set_gauge("mem", 42_000);

    let snap = t.snapshot();
    assert_eq!(snap.span_count, 2);
    assert!(snap.counter_count >= 1);
    assert_eq!(snap.gauge_count, 1);
}

#[test]
fn counter_accumulates_increments() {
    let mut t = test_telemetry();
    t.increment("x");
    t.increment("x");
    t.increment_by("x", 42);
    assert_eq!(t.metrics().get_counter("x"), 44);
    assert_eq!(t.metrics().get_counter("never"), 0);
}

#[test]
fn counter_saturates_at_max() {
    let mut t = test_telemetry();
    t.increment_by("big", u64::MAX - 1);
    t.increment_by("big", 5);
    assert_eq!(t.metrics().get_counter("big"), u64::MAX);
}

#[test]
fn histogram_stats_exact_values() {
    let mut t = test_telemetry();
    for v in [50_000, 10_000, 40_000, 20_000, 30_000] {
        t.record_histogram("latency", v);
    }
    let stats = t.metrics().get_histogram_stats("latency").unwrap();
    assert_eq!(stats.count, 5);
    assert_eq!(stats.sum, 150_000);
    assert_eq!(stats.mean, 30_000);
    assert_eq!(stats.p50, 30_000);
    // floor(5 * 0.99) = 4: the largest sample
    assert_eq!(stats.p99, 50_000);
}

#[test]
fn histogram_stats_hundred_samples() {
    let mut t = test_telemetry();
    for v in (1..=100).rev() {
        t.record_histogram("h", v);
    }
    let stats = t.metrics().get_histogram_stats("h").unwrap();
    assert_eq!(stats.count, 100);
    assert_eq!(stats.p50, 51);
    assert_eq!(stats.p99, 100);
    assert_eq!(stats.mean, 50);
}

#[test]
fn histogram_mean_rounds_down_for_negative_sums() {
    let mut t = test_telemetry();
    t.record_histogram("neg", -1);
    t.record_histogram("neg", -2);
    let stats = t.metrics().get_histogram_stats("neg").unwrap();
    assert_eq!(stats.sum, -3);
    assert_eq!(stats.mean, -2);
    assert_eq!(stats.p50, -1);
}

#[test]
fn histogram_unknown_name_has_no_stats() {
    let t = test_telemetry();
    assert!(t.metrics().get_histogram_stats("missing").is_none());
}

#[test]
fn stats_recomputed_after_new_samples() {
    let mut t = test_telemetry();
    t.record_histogram("h", 5);
    assert_eq!(t.metrics().get_histogram_stats("h").unwrap().count, 1);
    t.record_histogram("h", 7);
    let stats = t.metrics().get_histogram_stats("h").unwrap();
    assert_eq!(stats.count, 2);
    assert_eq!(stats.sum, 12);
}

#[test]
fn each_finished_span_is_recorded_once() {
    let mut t = test_telemetry();
    let a = t.start_span("a", SpanOperation::Inference);
    let b = t.start_span("b", SpanOperation::KvCacheOp);
    a.set_ok(&mut t);
    assert_eq!(t.snapshot().span_count, 1);
    b.set_error(&mut t, "boom");
    assert_eq!(t.snapshot().span_count, 2);
    assert_eq!(t.metrics().get_counter("spans.total"), 2);
    assert_eq!(t.metrics().get_counter("spans.errors"), 1);
    let inference = t.metrics().get_histogram_stats("span.inference.duration_ms").unwrap();
    assert_eq!(inference.count, 1);
    let kv = t.metrics().get_histogram_stats("span.kv_cache.op.duration_ms").unwrap();
    assert_eq!(kv.count, 1);
}

#[test]
fn error_span_counts_and_renders() {
    let mut t = test_telemetry();
    let span = t.start_span("fail", SpanOperation::TokenGeneration);
    span.set_error(&mut t, "msg");
    assert_eq!(t.metrics().get_counter("spans.errors"), 1);
    assert_eq!(t.metrics().get_counter("spans.total"), 1);
    assert_eq!(SpanStatus::Error("msg".to_string()).to_string(), "error: msg");
}

#[test]
fn started_span_is_unset_with_attributes_in_order() {
    let t = test_telemetry();
    let mut span = t.start_span("op", SpanOperation::VaultStore);
    span.set_attribute("k", "1");
    span.set_attribute("k", "2");
    let rec = span.current();
    assert_eq!(rec.status, SpanStatus::Unset);
    assert!(rec.duration.is_none());
    assert_eq!(rec.service, "ryzanstein");
    assert_eq!(rec.attributes, vec![("k".to_string(), "1".to_string()), ("k".to_string(), "2".to_string())]);
}

#[test]
fn gauge_keeps_last_write() {
    let mut t = test_telemetry();
    t.set_gauge("g", 1_000);
    t.set_gauge("g", -2_500);
    assert_eq!(t.metrics().get_gauge("g"), Some(-2_500));
    assert_eq!(t.metrics().get_gauge("unset"), None);
}

#[test]
fn all_operation_kinds_render() {
    let cases = [
        (SpanOperation::ModelLoad, "model.load"),
        (SpanOperation::Inference, "inference"),
        (SpanOperation::TokenGeneration, "token.generation"),
        (SpanOperation::KvCacheOp, "kv_cache.op"),
        (SpanOperation::SpeculativeDraft, "speculative.draft"),
        (SpanOperation::SpeculativeVerify, "speculative.verify"),
        (SpanOperation::EmbeddingEncode, "embedding.encode"),
        (SpanOperation::AgentExecute, "agent.execute"),
        (SpanOperation::VaultStore, "vault.store"),
        (SpanOperation::VaultRetrieve, "vault.retrieve"),
    ];
    for (op, text) in cases {
        assert_eq!(op.to_string(), text);
    }
    assert_eq!(SpanStatus::Success.to_string(), "ok");
    assert_eq!(SpanStatus::Unset.to_string(), "unset");
}

#[test]
fn released_open_span_is_recorded_once_as_ok() {
    let mut t = test_telemetry();
    let span = t.start_span("auto", SpanOperation::ModelLoad);
    SpanGuard::release(Some(span), &mut t);
    assert_eq!(t.snapshot().span_count, 1);
    assert_eq!(t.metrics().get_counter("spans.total"), 1);
    assert_eq!(t.metrics().get_counter("spans.errors"), 0);
    SpanGuard::release(None, &mut t);
    assert_eq!(t.snapshot().span_count, 1);
    assert_eq!(t.metrics().get_counter("spans.total"), 1);
}

#[test]
fn snapshot_counts_registries() {
    let mut t = test_telemetry();
    t.start_span("a", SpanOperation::Inference).set_ok(&mut t);
    t.start_span("b", SpanOperation::ModelLoad).set_ok(&mut t);
    t.increment("reqs");
    t.set_gauge("mem", 42_000);
    let snap = t.snapshot();
    assert_eq!(snap.service, "ryzanstein");
    assert_eq!(snap.span_count, 2);
    assert_eq!(snap.counter_count, 2);
    assert_eq!(snap.gauge_count, 1);
    assert_eq!(snap.histogram_count, 2);
    assert!(snap.uptime_secs < 60);
}
