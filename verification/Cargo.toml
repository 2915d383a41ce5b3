[package]
name = "hone_server"
version = "0.1.0"
edition = "2021"
publish = false

[dependencies]
subtle = "2"
ipnet = "2"
chrono = "0.4"
sha2 = "0.10"
base64 = "0.22"
serde = { version = "1", features = ["derive"] }
serde_json = "1"
jsonwebtoken = "9"
anyhow = "1"
axum = "0.8"
tokio = { version = "1", features = ["full"] }
tower-http = { version = "0.6", features = ["cors", "fs", "set-header", "trace"] }
tracing = "0.1"
reqwest = { version = "0.12", default-features = false, features = ["json", "rustls-tls"] }
