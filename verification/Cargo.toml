[package]
name = "currencyapi"
version = "0.1.0"
edition = "2021"
publish = false

[dependencies]
atoi = "2"
chrono = { version = "0.4", default-features = false, features = ["std"] }
reqwest = { version = "0.12", default-features = false }
rust_decimal = "1"
serde = "1"
serde_json = { version = "1", features = ["raw_value"] }
thiserror = "1"
