[package]
name = "connect_preflight"
version = "0.1.0"
edition = "2021"
publish = false

[dependencies]
solana-sdk = "2.2"
reqwest = { version = "0.12", default-features = false, features = ["blocking", "json", "rustls-tls"] }
serde = { version = "1.0", features = ["derive"] }
serde_json = "1.0"
thiserror = "1.0"
tracing = "0.1"
eyre = "0.6"
