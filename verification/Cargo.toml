[package]
name = "gitsite"
version = "0.1.0"
edition = "2021"
publish = false

[dependencies]
axum = "0.6"
env_logger = "0.10"
handlebars = "4"
reqwest = { version = "0.11", default-features = false, features = ["rustls-tls"] }
serde = { version = "1", features = ["derive"] }
serde_json = "1"
serde_yaml = "0.9"
tokio = { version = "1", features = ["full"] }
