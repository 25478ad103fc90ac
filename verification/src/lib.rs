//! Host process metrics and Azure Blob Storage plumbing, verified.

pub mod sinks;
pub mod sources;
pub mod text;
