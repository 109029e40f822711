[package]
name = "orderbook-rs"
version = "0.1.0"
edition = "2021"
publish = false

[dependencies]
pricelevel = "=0.9.2"
uuid = "=1.29.0"
serde = { version = "=1.0.229", features = ["derive"] }
metrics = "=0.24.6"
