//! Errors reported by the telemetry library.
use vstd::prelude::*;
use vstd::string::StringExecFns;

verus! {

/// Failure kinds, each with a human-readable cause.
#[derive(Debug, Clone, PartialEq)]
pub enum TelemetryError {
    ConfigError(String),
    ExportError(String),
    SpanError(String),
    MetricError(String),
    RyzansteinError(String),
    IoError(String),
    SerializationError(String),
}

/// The message an error is displayed as.
pub open spec fn error_text(e: TelemetryError) -> Seq<char> {
    match e {
        TelemetryError::ConfigError(m) => "Configuration error: "@ + m@,
        TelemetryError::ExportError(m) => "Export error: "@ + m@,
        TelemetryError::SpanError(m) => "Span error: "@ + m@,
        TelemetryError::MetricError(m) => "Metric error: "@ + m@,
        TelemetryError::RyzansteinError(m) => "Ryzanstein connection error: "@ + m@,
        TelemetryError::IoError(m) => "IO error: "@ + m@,
        TelemetryError::SerializationError(m) => "Serialization error: "@ + m@,
    }
}

impl TelemetryError {
    /// The error as a message: its kind followed by its cause.
    pub fn message(&self) -> (r: String)
        ensures
            r@ == error_text(*self),
    {
        let (mut s, cause) = match self {
            TelemetryError::ConfigError(m) => (String::from_str("Configuration error: "), m),
            TelemetryError::ExportError(m) => (String::from_str("Export error: "), m),
            TelemetryError::SpanError(m) => (String::from_str("Span error: "), m),
            TelemetryError::MetricError(m) => (String::from_str("Metric error: "), m),
            TelemetryError::RyzansteinError(m) => (
                String::from_str("Ryzanstein connection error: "),
                m,
            ),
            TelemetryError::IoError(m) => (String::from_str("IO error: "), m),
            TelemetryError::SerializationError(m) => (String::from_str("Serialization error: "), m),
        };
        s.append(cause.as_str());
        s
    }
}

} // verus!
