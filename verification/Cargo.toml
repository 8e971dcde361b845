[package]
name = "yfinance-rs"
version = "0.1.0"
edition = "2021"
publish = false

[dependencies]
paft = "=0.2.0"
rust_decimal = "1"
serde = { version = "=1.0.229", features = ["derive"] }
serde_json = "=1.0.154"
url = "=2.5.8"
