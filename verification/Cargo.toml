[package]
name = "rust_backend"
version = "0.1.0"
edition = "2021"
publish = false

[dependencies]
chrono = "=0.4.45"
serde = { version = "=1.0.229", features = ["derive"] }
serde_json = "=1.0.151"
ntex = { version = "=2.18.0", features = ["tokio"] }
dotenv = "=0.15.0"
env_logger = "=0.11.11"
log = "=0.4.34"
