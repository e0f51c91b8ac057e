[package]
name = "rmcp"
version = "0.1.0"
edition = "2021"
publish = false

[dependencies]
base64 = "0.22"
tower = { version = "0.5", features = ["timeout", "util"] }
serde = { version = "1", features = ["derive"] }
serde_json = "1"
chrono = "0.4"
tokio = { version = "1", features = ["rt-multi-thread", "macros", "io-std", "io-util", "process", "sync", "time"] }
uuid = { version = "1", features = ["v4"] }
thiserror = "2"
