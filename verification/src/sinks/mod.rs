//! Where telemetry goes.

pub mod azure_common;
