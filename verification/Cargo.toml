[package]
name = "vector_query"
version = "0.1.0"
edition = "2021"
publish = false

[dependencies]
hyper = { version = "1", features = ["http1", "server"] }
hyper-util = "0.1"
http-body-util = "0.1"
tokio = { version = "1", features = ["rt-multi-thread", "net", "macros"] }
qdrant-client = "1"
ollama-rs = "*"
custom_logger = "*"
serde = { version = "1", features = ["derive"] }
serde_json = "1"
