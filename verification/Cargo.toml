[package]
name = "proof_coordinator"
version = "0.1.0"
edition = "2021"
publish = false

[dependencies]
bytes = { version = "=1.12.1", features = ["serde"] }
hex = "=0.4.3"
secp256k1 = "=0.29.1"
serde = { version = "=1.0.229", features = ["derive"] }
serde_json = "=1.0.154"
serde_with = "=3.24.0"
spawned-concurrency = "=0.1.7"
spawned-rt = "=0.1.7"
thiserror = "=2.0.21"
tokio = { version = "=1.54.1", features = ["net", "io-util", "rt-multi-thread", "sync"] }
tracing = "=0.1.44"
