[package]
name = "stellar_aid"
version = "0.1.0"
edition = "2021"
publish = false

[dependencies]
hex = "0.4"
hmac = "0.12"
sha2 = "0.10"
soroban-sdk = "*"
serde = { version = "1", features = ["derive"] }
reqwest = { version = "*", default-features = false, features = ["json"] }
tokio = { version = "1", features = ["sync", "rt", "macros"] }
tracing = "0.1"
thiserror = "*"
dotenvy = "*"
