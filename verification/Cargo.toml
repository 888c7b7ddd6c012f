[package]
name = "docuglot"
version = "0.1.0"
edition = "2021"
publish = false

[dependencies]
conventus = "=0.3.0"
log = "=0.4.35"
lsp-types = "=0.89.2"
market = { version = "=0.30.1", features = ["std"] }
market_types = "=0.1.0"
serde = { version = "=1.0.229", features = ["derive"] }
serde_json = "=1.0.154"
thiserror = "=1.0.69"
