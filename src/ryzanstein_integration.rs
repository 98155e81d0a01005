//! Client side of the Ryzanstein service: endpoints and the health fallback.
use vstd::prelude::*;
use vstd::string::StringExecFns;
use crate::config::TelemetryConfig;

verus! {

#[verifier::external_type_specification]
#[verifier::external_body]
pub struct ExClient(reqwest::Client);

/// Relies on reqwest's `ClientBuilder::build` (through `Client::builder`): a
/// client, or `None` when the HTTP stack cannot be set up.
#[verifier::external_body]
fn build_client() -> (r: Option<reqwest::Client>) {
    reqwest::Client::builder().build().ok()
}

/// Health report of the Ryzanstein service; uptime in milliseconds.
#[derive(Debug, Clone, PartialEq)]
pub struct HealthStatus {
    pub status: String,
    pub model_loaded: bool,
    pub inference_count: u64,
    pub uptime_ms: u64,
}

/// Client for the Ryzanstein telemetry hooks; `client` is absent when no HTTP
/// client could be built.
pub struct RyzansteinTelemetryClient {
    pub base_url: String,
    pub client: Option<reqwest::Client>,
}

impl RyzansteinTelemetryClient {
    pub fn new(config: &TelemetryConfig) -> (r: Self)
        ensures
            r.base_url@ == config.ryzanstein_url@,
    {
        RyzansteinTelemetryClient { base_url: config.ryzanstein_url.clone(), client: build_client() }
    }

    /// The health endpoint, `<base_url>/health`.
    pub fn health_url(&self) -> (r: String)
        ensures
            r@ == self.base_url@ + "/health"@,
    {
        let mut url = self.base_url.clone();
        url.append("/health");
        url
    }

    /// The endpoint snapshots are pushed to, `<base_url>/v1/telemetry`.
    pub fn telemetry_url(&self) -> (r: String)
        ensures
            r@ == self.base_url@ + "/v1/telemetry"@,
    {
        let mut url = self.base_url.clone();
        url.append("/v1/telemetry");
        url
    }

    /// The status reported when the service cannot be reached.
    pub fn fallback_health() -> (r: HealthStatus)
        ensures
            r.status@ == "unavailable"@,
            !r.model_loaded,
            r.inference_count == 0,
            r.uptime_ms == 0,
    {
        HealthStatus {
            status: String::from_str("unavailable"),
            model_loaded: false,
            inference_count: 0,
            uptime_ms: 0,
        }
    }
}

} // verus!
