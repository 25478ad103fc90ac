[package]
name = "vector_agent"
version = "0.1.0"
edition = "2021"
publish = false

[dependencies]
async-trait = "0.1"
azure_core = { version = "=0.30.1", default-features = false, features = ["reqwest"] }
azure_identity = { version = "=0.30.0", default-features = false }
azure_storage_blob = { version = "=0.7.0", default-features = false }
bytes = "=1.12.1"
futures = "0.3"
glob = "=0.3.4"
nix = { version = "=0.31.3", features = ["user"] }
no-proxy = "=0.3.7"
procfs = "=0.18.0"
reqwest = { version = "=0.12.28", default-features = false, features = ["rustls-tls"] }
serde = { version = "1", features = ["derive"] }
snafu = "=0.9.2"
sysinfo = "=0.37.2"
