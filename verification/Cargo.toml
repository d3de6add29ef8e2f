[package]
name = "happy_project"
version = "0.1.0"
edition = "2021"
publish = false

[dependencies]
axum = "0.6"
futures = "0.3"
mongodb = "2"
serde = { version = "1", features = ["derive"] }
tokio = { version = "1", features = ["full"] }
tracing = "0.1"
tracing-subscriber = "0.3"
