use sigma_telemetry::metrics::MetricNames;
use sigma_telemetry::spans::SpanTemplates;
use sigma_telemetry::SpanOperation;

#[test]
fn test_metric_names_prefixed() {
    assert!(MetricNames::INFERENCE_REQUESTS.starts_with("ryzanstein."));
    assert!(MetricNames::GPU_UTILIZATION.starts_with("ryzanstein."));
}

#[test]
fn test_metric_names_unique() {
    let names = vec![
        MetricNames::INFERENCE_REQUESTS,
        MetricNames::INFERENCE_TOKENS,
        MetricNames::INFERENCE_LATENCY_MS,
        MetricNames::MODEL_LOAD_TIME_MS,
        MetricNames::KV_CACHE_HIT_RATE,
        MetricNames::SPEC_ACCEPTANCE_RATE,
        MetricNames::AGENT_EXECUTIONS,
        MetricNames::GPU_UTILIZATION,
    ];
    let unique: std::collections::HashSet<_> = names.iter().collect();
    assert_eq!(names.len(), unique.len());
}

#[test]
fn test_inference_template() {
    let (op, attrs) = SpanTemplates::inference("bitnet-3b", 1024);
    assert_eq!(op, SpanOperation::Inference);
    assert_eq!(attrs.len(), 2);
    assert_eq!(attrs[0].1, "bitnet-3b");
}

#[test]
fn test_model_load_template() {
    // 5600.0 MB in thousandths of a megabyte
    let (op, attrs) = SpanTemplates::model_load("mamba-2.8b", 5_600_000);
    assert_eq!(op, SpanOperation::ModelLoad);
    assert_eq!(attrs[1].1, "5600.0");
}

#[test]
fn test_speculative_verify_acceptance() {
    let (_, attrs) = SpanTemplates::speculative_verify(8, 10);
    assert_eq!(attrs[2].1, "0.80");
}

#[test]
fn test_agent_execute_template() {
    let (op, attrs) = SpanTemplates::agent_execute("agent-001", "code_review");
    assert_eq!(op, SpanOperation::AgentExecute);
    assert_eq!(attrs[0].1, "agent-001");
}

#[test]
fn inference_template_writes_token_budget() {
    let (_, attrs) = SpanTemplates::inference("m", 1024);
    assert_eq!(attrs[0].0, "model.name");
    assert_eq!(attrs[1], ("model.max_tokens", "1024".to_string()));
}

#[test]
fn kv_cache_and_draft_templates() {
    let (op, attrs) = SpanTemplates::kv_cache("evict", 0);
    assert_eq!(op, SpanOperation::KvCacheOp);
    assert_eq!(attrs, vec![("kv.operation", "evict".to_string()), ("kv.layer", "0".to_string())]);
    let (op, attrs) = SpanTemplates::speculative_draft(usize::MAX);
    assert_eq!(op, SpanOperation::SpeculativeDraft);
    assert_eq!(attrs, vec![("speculative.draft_tokens", usize::MAX.to_string())]);
}

#[test]
fn acceptance_rate_rounding_and_edges() {
    let rate = |a: usize, t: usize| SpanTemplates::speculative_verify(a, t).1[2].1.clone();
    assert_eq!(rate(1, 3), "0.33");
    assert_eq!(rate(2, 3), "0.67");
    assert_eq!(rate(10, 10), "1.00");
    assert_eq!(rate(15, 10), "1.50");
    assert_eq!(rate(1, 8), "0.12");
    assert_eq!(rate(3, 8), "0.38");
    assert_eq!(rate(0, 0), "NaN");
    assert_eq!(rate(4, 0), "inf");
    let (op, attrs) = SpanTemplates::speculative_verify(8, 10);
    assert_eq!(op, SpanOperation::SpeculativeVerify);
    assert_eq!(attrs[0], ("speculative.accepted", "8".to_string()));
    assert_eq!(attrs[1], ("speculative.total", "10".to_string()));
}

#[test]
fn model_size_rounds_to_one_decimal() {
    let size = |milli: u64| SpanTemplates::model_load("m", milli).1[1].1.clone();
    assert_eq!(size(2_849), "2.8");
    assert_eq!(size(2_851), "2.9");
    assert_eq!(size(2_850), "2.8");
    assert_eq!(size(2_950), "3.0");
    assert_eq!(size(0), "0.0");
}
