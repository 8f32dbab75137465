[package]
name = "skootrs"
version = "0.1.0"
edition = "2021"
publish = false

[dependencies]
sha2 = "=0.10.9"
chrono = "=0.4.45"
reqwest = { version = "=0.12.28", default-features = false, features = ["rustls-tls"] }
tokio = { version = "=1.53.2", features = ["rt-multi-thread"] }
serde = "=1.0.229"
serde_json = "=1.0.151"
base64 = "=0.22.1"
