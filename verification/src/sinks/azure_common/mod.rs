//! What the Azure Blob Storage sinks share.

pub mod client;
pub mod config;
pub mod container;
pub mod credential;
pub mod endpoint;
pub mod healthcheck;
pub mod http;
pub mod identity;
pub mod proxy;
pub mod request;
pub mod token_round;
pub mod transport;
