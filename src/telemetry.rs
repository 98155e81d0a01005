//! The telemetry core: span lifecycle, the span buffer and snapshots.
use vstd::prelude::*;
use vstd::string::StringExecFns;
use crate::aggregator::{counter_value, samples_of, saturating_sum, MetricsCollector, MetricsView};
use crate::clock::nanos_since;
use crate::config::TelemetryConfig;
use crate::span::{operation_text, SpanOperation, SpanRecord, SpanStatus};

verus! {

/// The abstract state of a `SigmaTelemetry`.
pub struct TelemetryView {
    pub service: Seq<char>,
    pub spans: Seq<SpanRecord>,
    pub metrics: MetricsView,
}

/// Name of the histogram that collects the durations of one operation kind.
pub open spec fn duration_key(op: SpanOperation) -> Seq<char> {
    "span."@ + operation_text(op) + ".duration_ms"@
}

/// A duration in nanoseconds as a histogram sample in thousandths of a
/// millisecond, that is whole microseconds.
pub open spec fn duration_sample(nanos: u64) -> i64 {
    (nanos / 1000) as i64
}

/// The metrics after recording one finished span.
pub open spec fn metrics_after_span(m: MetricsView, span: SpanRecord) -> MetricsView {
    let total = m.counters.insert(
        "spans.total"@,
        saturating_sum(counter_value(m.counters, "spans.total"@), 1),
    );
    let counters = if span.status is Error {
        total.insert("spans.errors"@, saturating_sum(counter_value(total, "spans.errors"@), 1))
    } else {
        total
    };
    let histograms = match span.duration {
        Some(d) => m.histograms.insert(
            duration_key(span.operation),
            samples_of(m.histograms, duration_key(span.operation)).push(duration_sample(d)),
        ),
        None => m.histograms,
    };
    MetricsView { counters, gauges: m.gauges, histograms }
}

/// The state after recording one finished span: metrics updated and the span
/// appended to the buffer.
pub open spec fn after_record(v: TelemetryView, span: SpanRecord) -> TelemetryView {
    TelemetryView {
        service: v.service,
        spans: v.spans.push(span),
        metrics: metrics_after_span(v.metrics, span),
    }
}

/// A span record closed with `status` after `nanos` nanoseconds.
pub open spec fn finished(record: SpanRecord, status: SpanStatus, nanos: u64) -> SpanRecord {
    SpanRecord { status, duration: Some(nanos), ..record }
}

/// A point-in-time summary of buffer and registry sizes, with the whole
/// seconds since the core was made.
#[derive(Debug, Clone)]
pub struct TelemetrySnapshot {
    pub service: String,
    pub span_count: usize,
    pub counter_count: usize,
    pub gauge_count: usize,
    pub histogram_count: usize,
    pub uptime_secs: u64,
}

/// Telemetry core: owns the metrics and the buffer of finished spans.
pub struct SigmaTelemetry {
    config: TelemetryConfig,
    metrics: MetricsCollector,
    active_spans: Vec<SpanRecord>,
    started: std::time::Instant,
}

impl SigmaTelemetry {
    pub closed spec fn wf(&self) -> bool {
        self.metrics.wf()
    }

    pub closed spec fn view(&self) -> TelemetryView {
        TelemetryView {
            service: self.config.service_name@,
            spans: self.active_spans@,
            metrics: self.metrics.view(),
        }
    }

    /// A core with no spans and no metrics.
    pub fn new(config: TelemetryConfig) -> (r: Self)
        ensures
            r.wf(),
            r.view().service == config.service_name@,
            r.view().spans == Seq::<SpanRecord>::empty(),
            r.view().metrics.counters == Map::<Seq<char>, u64>::empty(),
            r.view().metrics.gauges == Map::<Seq<char>, i64>::empty(),
            r.view().metrics.histograms == Map::<Seq<char>, Seq<i64>>::empty(),
    {
        SigmaTelemetry {
            config,
            metrics: MetricsCollector::new(),
            active_spans: Vec::new(),
            started: std::time::Instant::now(),
        }
    }

    /// The configuration the core was made with.
    pub fn config(&self) -> (r: &TelemetryConfig)
        ensures
            r.service_name@ == self.view().service,
    {
        &self.config
    }

    /// Opens a span: status `Unset`, no duration, no attributes.
    pub fn start_span(&self, name: &str, operation: SpanOperation) -> (r: SpanGuard)
        ensures
            r.record().name@ == name@,
            r.record().service@ == self.view().service,
            r.record().operation == operation,
            r.record().duration is None,
            r.record().attributes@.len() == 0,
            r.record().status == SpanStatus::Unset,
    {
        let record = SpanRecord {
            name: String::from_str(name),
            service: String::from_str(self.config.service_name.as_str()),
            operation,
            start_time: std::time::SystemTime::now(),
            duration: None,
            attributes: Vec::new(),
            status: SpanStatus::Unset,
        };
        SpanGuard { record, start: std::time::Instant::now() }
    }

    /// The metrics, for reading.
    pub fn metrics(&self) -> (r: &MetricsCollector)
        requires
            self.wf(),
        ensures
            r.wf(),
            r.view() == self.view().metrics,
    {
        &self.metrics
    }

    /// Adds one to the named counter (see `MetricsCollector::increment`).
    pub fn increment(&mut self, name: &str)
        requires
            old(self).wf(),
        ensures
            final(self).wf(),
            final(self).view() == (TelemetryView {
                metrics: MetricsView {
                    counters: old(self).view().metrics.counters.insert(
                        name@,
                        saturating_sum(counter_value(old(self).view().metrics.counters, name@), 1),
                    ),
                    ..old(self).view().metrics
                },
                ..old(self).view()
            }),
    {
        self.metrics.increment(name);
    }

    /// Adds `value` to the named counter (see `MetricsCollector::increment_by`).
    pub fn increment_by(&mut self, name: &str, value: u64)
        requires
            old(self).wf(),
        ensures
            final(self).wf(),
            final(self).view() == (TelemetryView {
                metrics: MetricsView {
                    counters: old(self).view().metrics.counters.insert(
                        name@,
                        saturating_sum(counter_value(old(self).view().metrics.counters, name@), value),
                    ),
                    ..old(self).view().metrics
                },
                ..old(self).view()
            }),
    {
        self.metrics.increment_by(name, value);
    }

    /// Overwrites the named gauge (see `MetricsCollector::set_gauge`).
    pub fn set_gauge(&mut self, name: &str, value: i64)
        requires
            old(self).wf(),
        ensures
            final(self).wf(),
            final(self).view() == (TelemetryView {
                metrics: MetricsView {
                    gauges: old(self).view().metrics.gauges.insert(name@, value),
                    ..old(self).view().metrics
                },
                ..old(self).view()
            }),
    {
        self.metrics.set_gauge(name, value);
    }

    /// Appends a sample to the named histogram (see `MetricsCollector::record_histogram`).
    pub fn record_histogram(&mut self, name: &str, value: i64)
        requires
            old(self).wf(),
        ensures
            final(self).wf(),
            final(self).view() == (TelemetryView {
                metrics: MetricsView {
                    histograms: old(self).view().metrics.histograms.insert(
                        name@,
                        samples_of(old(self).view().metrics.histograms, name@).push(value),
                    ),
                    ..old(self).view().metrics
                },
                ..old(self).view()
            }),
    {
        self.metrics.record_histogram(name, value);
    }

    /// Records a finished span: counts it under `spans.total` (and
    /// `spans.errors` when it failed), adds its duration to the histogram of
    /// its operation kind, and appends it to the buffer.
    pub fn record_span(&mut self, span: SpanRecord)
        requires
            old(self).wf(),
        ensures
            final(self).wf(),
            final(self).view() == after_record(old(self).view(), span),
    {
        let ghost before = self.view();
        self.metrics.increment("spans.total");
        if let SpanStatus::Error(_) = &span.status {
            self.metrics.increment("spans.errors");
        }
        if let Some(d) = span.duration {
            let mut key = String::from_str("span.");
            let op = span.operation.to_string();
            key.append(op.as_str());
            key.append(".duration_ms");
            self.metrics.record_histogram(key.as_str(), (d / 1000) as i64);
        }
        self.active_spans.push(span);
        proof {
            assert(self.view().metrics == metrics_after_span(before.metrics, span));
        }
    }

    /// Sizes of the span buffer and of the three metric registries.
    pub fn snapshot(&self) -> (r: TelemetrySnapshot)
        requires
            self.wf(),
        ensures
            r.service@ == self.view().service,
            r.span_count == self.view().spans.len(),
            r.counter_count == self.view().metrics.counters.len(),
            r.gauge_count == self.view().metrics.gauges.len(),
            r.histogram_count == self.view().metrics.histograms.len(),
    {
        TelemetrySnapshot {
            service: String::from_str(self.config.service_name.as_str()),
            span_count: self.active_spans.len(),
            counter_count: self.metrics.counter_count(),
            gauge_count: self.metrics.gauge_count(),
            histogram_count: self.metrics.histogram_count(),
            uptime_secs: nanos_since(&self.started) / 1_000_000_000,
        }
    }
}

/// An open span. Finalising it (`set_ok`, `set_error`) consumes the guard, so
/// a span is recorded at most once.
pub struct SpanGuard {
    record: SpanRecord,
    start: std::time::Instant,
}

impl SpanGuard {
    pub closed spec fn record(&self) -> SpanRecord {
        self.record
    }

    /// The span as recorded so far.
    pub fn current(&self) -> (r: &SpanRecord)
        ensures
            *r == self.record(),
    {
        &self.record
    }

    /// Appends an attribute pair; earlier pairs with the same key stay.
    pub fn set_attribute(&mut self, key: &str, value: &str)
        ensures
            final(self).record() == (SpanRecord {
                attributes: final(self).record().attributes,
                ..old(self).record()
            }),
            final(self).record().attributes@.len() == old(self).record().attributes@.len() + 1,
            final(self).record().attributes@.drop_last() == old(self).record().attributes@,
            final(self).record().attributes@.last().0@ == key@,
            final(self).record().attributes@.last().1@ == value@,
    {
        let ghost before = self.record.attributes@;
        self.record.attributes.push((String::from_str(key), String::from_str(value)));
        assert(self.record.attributes@.drop_last() =~= before);
    }

    /// Finalises the span with status `status` and records it into `telemetry`.
    fn finish(self, telemetry: &mut SigmaTelemetry, status: SpanStatus)
        requires
            old(telemetry).wf(),
        ensures
            final(telemetry).wf(),
            exists|nanos: u64|
                final(telemetry).view() == after_record(
                    old(telemetry).view(),
                    #[trigger] finished(self.record(), status, nanos),
                ),
    {
        let nanos = nanos_since(&self.start);
        let mut record = self.record;
        record.status = status;
        record.duration = Some(nanos);
        assert(record == finished(self.record(), status, nanos));
        telemetry.record_span(record);
    }

    /// Closes the span successfully and records it.
    pub fn set_ok(self, telemetry: &mut SigmaTelemetry)
        requires
            old(telemetry).wf(),
        ensures
            final(telemetry).wf(),
            exists|nanos: u64|
                final(telemetry).view() == after_record(
                    old(telemetry).view(),
                    #[trigger] finished(self.record(), SpanStatus::Success, nanos),
                ),
    {
        self.finish(telemetry, SpanStatus::Success);
    }

    /// Closes the span as failed with `msg` and records it.
    pub fn set_error(self, telemetry: &mut SigmaTelemetry, msg: &str)
        requires
            old(telemetry).wf(),
        ensures
            final(telemetry).wf(),
            exists|m: String, nanos: u64|
                m@ == msg@ && final(telemetry).view() == after_record(
                    old(telemetry).view(),
                    #[trigger] finished(self.record(), SpanStatus::Error(m), nanos),
                ),
    {
        let m = String::from_str(msg);
        let ghost mg = m;
        self.finish(telemetry, SpanStatus::Error(m));
        assert(mg@ == msg@);
    }

    /// Closes a span that is still open with status ok, as when its handle is
    /// released without an explicit close; `None` (a span already closed)
    /// records nothing.
    pub fn release(guard: Option<SpanGuard>, telemetry: &mut SigmaTelemetry)
        requires
            old(telemetry).wf(),
        ensures
            final(telemetry).wf(),
            guard is None ==> final(telemetry).view() == old(telemetry).view(),
            guard is Some ==> exists|nanos: u64|
                final(telemetry).view() == after_record(
                    old(telemetry).view(),
                    #[trigger] finished(guard->Some_0.record(), SpanStatus::Success, nanos),
                ),
    {
        if let Some(g) = guard {
            g.set_ok(telemetry);
        }
    }
}

proof fn lemma_counter_names_differ()
    ensures
        "spans.total"@ != "spans.errors"@,
{
    reveal_strlit("spans.total");
    reveal_strlit("spans.errors");
    assert("spans.total"@[6] != "spans.errors"@[6]);
}

/// Recording a finished span, whichever way it was closed, appends exactly
/// that span to the buffer and counts it once under `spans.total`.
pub proof fn lemma_recorded_once(v: TelemetryView, span: SpanRecord)
    requires
        counter_value(v.metrics.counters, "spans.total"@) < u64::MAX,
    ensures
        after_record(v, span).spans.len() == v.spans.len() + 1,
        after_record(v, span).spans.drop_last() == v.spans,
        after_record(v, span).spans.last() == span,
        counter_value(after_record(v, span).metrics.counters, "spans.total"@) == counter_value(
            v.metrics.counters,
            "spans.total"@,
        ) + 1,
{
    lemma_counter_names_differ();
    assert(after_record(v, span).spans.drop_last() =~= v.spans);
}

/// Closing an open span with status ok (by `set_ok`, or by `release`)
/// appends exactly that span, finished with a duration, adds one to
/// `spans.total` and leaves `spans.errors` as it was.
pub proof fn lemma_closed_ok_once(before: TelemetryView, record: SpanRecord, nanos: u64)
    requires
        counter_value(before.metrics.counters, "spans.total"@) < u64::MAX,
    ensures
        after_record(before, finished(record, SpanStatus::Success, nanos)).spans == before.spans.push(
            finished(record, SpanStatus::Success, nanos),
        ),
        finished(record, SpanStatus::Success, nanos).name == record.name,
        finished(record, SpanStatus::Success, nanos).operation == record.operation,
        finished(record, SpanStatus::Success, nanos).attributes == record.attributes,
        finished(record, SpanStatus::Success, nanos).duration is Some,
        counter_value(
            after_record(before, finished(record, SpanStatus::Success, nanos)).metrics.counters,
            "spans.total"@,
        ) == counter_value(before.metrics.counters, "spans.total"@) + 1,
        counter_value(
            after_record(before, finished(record, SpanStatus::Success, nanos)).metrics.counters,
            "spans.errors"@,
        ) == counter_value(before.metrics.counters, "spans.errors"@),
{
    lemma_counter_names_differ();
}

/// Closing an open span with an error appends exactly that span with status
/// `Error(msg)` and a duration, adds one to both `spans.errors` and
/// `spans.total`, and its status renders as `error: <msg>`.
pub proof fn lemma_closed_error_once(
    before: TelemetryView,
    record: SpanRecord,
    msg: String,
    nanos: u64,
)
    requires
        counter_value(before.metrics.counters, "spans.total"@) < u64::MAX,
        counter_value(before.metrics.counters, "spans.errors"@) < u64::MAX,
    ensures
        after_record(before, finished(record, SpanStatus::Error(msg), nanos)).spans
            == before.spans.push(finished(record, SpanStatus::Error(msg), nanos)),
        finished(record, SpanStatus::Error(msg), nanos).duration is Some,
        counter_value(
            after_record(before, finished(record, SpanStatus::Error(msg), nanos)).metrics.counters,
            "spans.errors"@,
        ) == counter_value(before.metrics.counters, "spans.errors"@) + 1,
        counter_value(
            after_record(before, finished(record, SpanStatus::Error(msg), nanos)).metrics.counters,
            "spans.total"@,
        ) == counter_value(before.metrics.counters, "spans.total"@) + 1,
        crate::span::status_text(SpanStatus::Error(msg)) == "error: "@ + msg@,
{
    lemma_counter_names_differ();
}

} // verus!
