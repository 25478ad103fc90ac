//! Where telemetry comes from.

pub mod host_metrics;
