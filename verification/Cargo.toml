[package]
name = "core_accounting"
version = "0.1.0"
edition = "2021"
publish = false

[dependencies]
es-entity = "=0.10.41"
cala-ledger = "=0.19.2"
chrono = { version = "=0.4.45", features = ["serde"] }
derive_builder = "=0.20.2"
serde = { version = "1", features = ["derive"] }
sqlx = { version = "=0.8.6", features = ["runtime-tokio", "postgres", "uuid", "chrono"] }
tracing = "0.1"
job = "=0.6.37"
obix = "=0.2.33"
