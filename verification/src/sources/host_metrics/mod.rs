//! Metrics about the host.

pub mod collector;
pub mod filter;
pub mod metric;
pub mod process;
pub mod process_laws;
pub mod process_metrics;
pub mod process_tags;
pub mod shm;
pub mod tags;
pub mod uid_cache;
