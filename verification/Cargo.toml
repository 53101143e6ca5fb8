[package]
name = "jcp_protocol"
version = "0.1.0"
edition = "2021"
publish = false

[dependencies]
ed25519-dalek = "=2.2.0"
sha2 = "=0.10.9"
hex = "=0.4.3"
serde = { version = "=1.0.229", features = ["derive"] }
serde_json = "=1.0.154"
uuid = { version = "=1.29.0", features = ["v4", "serde"] }
chrono = { version = "=0.4.45", features = ["serde"] }
getrandom = "=0.2.17"
schemars = { version = "=0.8.22", features = ["uuid1", "chrono"] }
thiserror = "=1.0.69"
anyhow = "=1.0.104"
reqwest = { version = "=0.12.28", default-features = false }
tokio = { version = "=1.54.1", features = ["rt", "macros"] }
