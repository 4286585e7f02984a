[package]
name = "tool_execution"
version = "0.1.0"
edition = "2021"
publish = false

[dependencies]
anyhow = "1"
async-stream = "0.3"
futures = "0.3"
rmcp = { version = "*", default-features = false }
serde_json = "1"
tokio = { version = "1", features = ["sync", "macros", "rt"] }
tokio-util = "0.7"
tracing = "0.1"
