[package]
name = "ksyup"
version = "0.1.0"
edition = "2021"
publish = false

[dependencies]
chrono = "=0.4.45"
color-eyre = "=0.6.5"
derive_more = "=0.99.20"
futures = "=0.3.34"
log = "=0.4.35"
ntex = { version = "=2.18.0", features = ["tokio"] }
ntex-cors = "=2.1.0"
ntex-files = "=2.1.0"
serde = { version = "=1.0.229", features = ["derive"] }
serde_json = "=1.0.154"
sqlx = { version = "=0.8.6", default-features = false, features = ["postgres", "runtime-tokio"] }
uuid = { version = "=1.29.1", features = ["v4"] }
