[package]
name = "meme_generator"
version = "0.1.0"
edition = "2021"
publish = false

[dependencies]
anyhow = "1"
async-nats = "0.33"
axum = "0.6"
base64 = "0.21"
clap = { version = "4", features = ["derive", "env"] }
futures = "0.3"
metrics = "0.21"
metrics-exporter-prometheus = { version = "0.12", default-features = false }
redis = { version = "0.27", features = ["tokio-comp", "connection-manager"] }
reqwest = { version = "0.11", default-features = false, features = ["json"] }
serde = { version = "1", features = ["derive"] }
serde_json = "1"
tokio = { version = "1", features = ["macros", "rt-multi-thread", "time"] }
tracing = "0.1"
tracing-subscriber = { version = "0.3", features = ["env-filter"] }
uuid = { version = "1", features = ["v4"] }
