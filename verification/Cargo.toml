[package]
name = "temp_mongo"
version = "0.1.0"
edition = "2021"
publish = false

[dependencies]
calamine = "0.23"
futures-util = "0.3"
mongodb = "2"
serde = { version = "1", features = ["derive"] }
serde_json = "1"
tempfile = "3"
tokio = { version = "1", features = ["time"] }
