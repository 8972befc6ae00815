[package]
name = "backend"
version = "0.1.0"
edition = "2021"
publish = false

[dependencies]
chrono = "=0.4.45"
serde = { version = "=1.0.229", features = ["derive"] }
serde_json = "=1.0.154"
sqlite = "=0.37.4"
home = "=0.5.12"
ntex = { version = "=3.12.3", features = ["tokio"] }
google-calendar = "=0.10.0"
ntex-httparse = "=2.1.0"
