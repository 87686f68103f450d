[package]
name = "tinirun"
version = "0.1.0"
edition = "2021"
rust-version = "1.95"
publish = false

[dependencies]
aide = { version = "=0.15.1", features = ["axum", "axum-json", "swagger"] }
anyhow = "=1.0.104"
axum = "=0.8.9"
axum-streams = { version = "=0.30.0", features = ["json"] }
bollard = "=0.19.4"
chrono = { version = "=0.4.45", features = ["serde"] }
figment = { version = "=0.10.19", features = ["env"] }
fred = "=10.1.0"
futures = "=0.3.34"
# Not used directly: liquid depends on it, and its later releases need a
# newer compiler than rust-version.
kstring = "=2.0.2"
liquid = "=0.26.11"
reqwest = { version = "=0.13.5", default-features = false, features = ["json", "stream"] }
reqwest-streams = { version = "=0.20.0", features = ["json"] }
schemars = "=0.9.0"
serde = { version = "=1.0.229", features = ["derive"] }
serde_json = "=1.0.154"
serde_with = { version = "=3.24.0", features = ["base64"] }
strum = { version = "=0.27.2", features = ["derive"] }
thiserror = "=2.0.21"
tokio = { version = "=1.54.1", features = ["full"] }
tokio-stream = "=0.1.19"
tokio-tar = "=0.3.1"
tokio-util = { version = "=0.7.20", features = ["io"] }
toml = "=0.9.12"
tracing = "=0.1.44"
uuid = { version = "=1.29.0", features = ["v4"] }
validator = { version = "=0.20.0", features = ["derive"] }
