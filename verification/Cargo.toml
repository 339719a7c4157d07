[package]
name = "live2d_render"
version = "0.1.0"
edition = "2021"
publish = false

[dependencies]
serde = { version = "1", features = ["derive"] }
serde_json = "1"
thiserror = "*"
tokio = { version = "1", features = ["sync", "rt"] }
async-trait = "0.1"
tracing = "0.1"
remotemedia-plugin-sdk = "*"
