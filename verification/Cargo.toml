[package]
name = "health_monitor"
version = "0.1.0"
edition = "2021"
publish = false

[dependencies]
serde_json = "*"
worker = { version = "*", features = ["http"] }
axum = { version = "*", default-features = false }
tower-service = "*"
console_error_panic_hook = "*"
