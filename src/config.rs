//! Settings consumed by the telemetry core and the exporter.
use vstd::prelude::*;
use vstd::string::StringExecFns;

verus! {

/// Telemetry settings. The sampling rate is in millionths (one million means
/// every span); the core passes it through without acting on it, as it does
/// the buffer bound.
#[derive(Debug, Clone)]
pub struct TelemetryConfig {
    pub service_name: String,
    pub otlp_endpoint: String,
    pub sampling_rate_ppm: u32,
    pub metrics_enabled: bool,
    pub traces_enabled: bool,
    pub ryzanstein_url: String,
    pub export_interval_secs: u64,
    pub max_buffer_size: usize,
}

impl Default for TelemetryConfig {
    fn default() -> (r: Self)
        ensures
            r.service_name@ == "ryzanstein"@,
            r.otlp_endpoint@ == "http://localhost:4317"@,
            r.sampling_rate_ppm == 1_000_000,
            r.metrics_enabled,
            r.traces_enabled,
            r.ryzanstein_url@ == "http://localhost:8000"@,
            r.export_interval_secs == 10,
            r.max_buffer_size == 1024,
    {
        TelemetryConfig {
            service_name: String::from_str("ryzanstein"),
            otlp_endpoint: String::from_str("http://localhost:4317"),
            sampling_rate_ppm: 1_000_000,
            metrics_enabled: true,
            traces_enabled: true,
            ryzanstein_url: String::from_str("http://localhost:8000"),
            export_interval_secs: 10,
            max_buffer_size: 1024,
        }
    }
}

} // verus!
