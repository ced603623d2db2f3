[package]
name = "cloudillo"
version = "0.1.0"
edition = "2021"
publish = false

[dependencies]
async-trait = "*"
axum = "0.8"
base64 = "0.22"
chrono = "0.4"
dashmap = "*"
jsonwebtoken = { version = "*", features = ["rust_crypto"] }
lru = "*"
parking_lot = "0.12"
rand = "*"
regex = "1"
serde = { version = "1", features = ["derive"] }
serde_json = "1"
serde_with = "3"
sha2 = "0.10"
tokio = { version = "1", features = ["sync", "time", "rt", "macros"] }
tracing = "0.1"
webauthn-rs = { version = "*", features = ["danger-allow-state-serialisation"] }
