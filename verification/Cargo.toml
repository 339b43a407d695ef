[package]
name = "kodama"
version = "0.1.0"
edition = "2021"
publish = false

[dependencies]
md5 = "0.7"
base64 = "0.22"
tokio = { version = "1", features = ["full"] }
rusqlite = { version = "*", features = ["bundled"] }
serde = { version = "1", features = ["derive"] }
serde_json = "1"
serde_yaml_ng = "*"
fastrand = "2"
tracing = "0.1"
tracing-subscriber = "0.3"
reqwest = { version = "0.12", default-features = false }
