//! In-process observability core: timed spans, metric aggregation and the
//! transformation of finished spans into export documents.
use vstd::prelude::*;

pub mod text;
pub mod span;
pub mod registry;
pub mod stats;
pub mod aggregator;
pub mod config;
pub mod clock;
pub mod telemetry;
pub mod spans;
pub mod metrics;
pub mod error;
pub mod exporter;
pub mod ryzanstein_integration;

pub use crate::aggregator::MetricsCollector;
pub use crate::span::{SpanOperation, SpanRecord, SpanStatus};
pub use crate::stats::HistogramStats;
pub use crate::telemetry::{SigmaTelemetry, SpanGuard, TelemetrySnapshot};

verus! {

} // verus!
