[package]
name = "toshi_server"
version = "0.1.0"
edition = "2021"
publish = false

[dependencies]
tantivy = "=0.19.2"
uuid = { version = "1", features = ["v4"] }
serde = { version = "1", features = ["derive"] }
serde_json = "1"
hyper = { version = "0.14", features = ["full"] }
tokio = { version = "1", features = ["full"] }
