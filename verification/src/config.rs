//! The telemetry and server configuration values, decided here and handed to
//! the exporters and the listener by the server layer. Pipeline construction
//! itself is wiring around these values; any failure there is fatal at
//! startup, by design.

use vstd::prelude::*;

verus! {

/// The port the listener binds, on all interfaces.
pub const SERVER_PORT: u16 = 8000;

/// Everything the telemetry bootstrap decides: where to export, how the
/// service announces itself, the export cadence, and the log filter. The
/// sampling policy is always-on and ids are drawn at random; both are fixed
/// choices, not configuration.
pub struct TelemetryConfig {
    /// The collector endpoint spans and metrics are exported to.
    pub endpoint: String,
    /// The service name attached to every exported trace and metric.
    pub service_name: String,
    /// The service version attached alongside the name.
    pub service_version: String,
    /// Seconds between metric exports.
    pub export_interval_secs: u64,
    /// Seconds an export may take before it is dropped; the next interval
    /// retries.
    pub export_timeout_secs: u64,
    /// The verbosity filter for the logging sink.
    pub log_filter: String,
}

/// The collector address used when the environment names none.
pub open spec fn default_endpoint() -> Seq<char> {
    "http://otel-collector:4317"@
}

/// The verbosity used when the environment names none.
pub open spec fn default_log_filter() -> Seq<char> {
    "info"@
}

/// Decides the full configuration from the two environment readings: the
/// collector endpoint and the log filter, each defaulted when unset. All
/// other values are fixed.
pub fn telemetry_config(endpoint_env: Option<String>, log_filter_env: Option<String>) -> (c:
    TelemetryConfig)
    ensures
        c.endpoint@ == match endpoint_env {
            Some(e) => e@,
            None => default_endpoint(),
        },
        c.log_filter@ == match log_filter_env {
            Some(f) => f@,
            None => default_log_filter(),
        },
        c.service_name@ == "rust-service"@,
        c.service_version@ == "1.0.0"@,
        c.export_interval_secs == 5,
        c.export_timeout_secs == 3,
{
    let endpoint = match endpoint_env {
        Option::Some(e) => e,
        Option::None => String::from_str("http://otel-collector:4317"),
    };
    let log_filter = match log_filter_env {
        Option::Some(f) => f,
        Option::None => String::from_str("info"),
    };
    TelemetryConfig {
        endpoint,
        service_name: String::from_str("rust-service"),
        service_version: String::from_str("1.0.0"),
        export_interval_secs: 5,
        export_timeout_secs: 3,
        log_filter,
    }
}

} // verus!
