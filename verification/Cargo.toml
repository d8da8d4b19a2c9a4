[package]
name = "payment-scheduler"
version = "0.1.0"
edition = "2021"
publish = false

[dependencies]
soroban-sdk = "22"
axum = "0.7"
deadpool-postgres = "0.14"
tokio-postgres = { version = "0.7", features = ["with-chrono-0_4", "with-uuid-1"] }
serde = { version = "1", features = ["derive"] }
serde_json = "1"
chrono = { version = "0.4", features = ["serde"] }
uuid = { version = "1", features = ["v4", "serde"] }
