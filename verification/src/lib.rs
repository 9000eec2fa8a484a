//! A small HTTP service's verified core: route dispatch, the JSON bodies of
//! its four endpoints, the request-metrics model, and the telemetry
//! configuration values. The network server, the telemetry exporters and the
//! logging sink live outside the library and only carry these values.

pub mod config;
pub mod decimal;
pub mod handlers;
pub mod http;
pub mod metrics;
pub mod text;
