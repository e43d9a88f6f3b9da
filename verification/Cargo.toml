[package]
name = "marketplace_core"
version = "0.1.0"
edition = "2021"
publish = false

[dependencies]
bcrypt = "=0.19.3"
chrono = "=0.4.45"
rand = "=0.8.8"
rust_decimal = "=1.43.0"
serde_json = "1"
uuid = { version = "=1.29.0", features = ["v4"] }
