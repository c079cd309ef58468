[package]
name = "media_queue"
version = "0.1.0"
edition = "2021"
publish = false

[dependencies]
chrono = "0.4"
uuid = { version = "1", features = ["v4"] }
serde = { version = "1", features = ["derive"] }
serde_json = "1"
tokio = { version = "1", features = ["macros", "rt-multi-thread", "time", "sync"] }
redis = { version = "0.23", features = ["tokio-comp"] }
mongodb = "2"
futures-util = "0.3"
