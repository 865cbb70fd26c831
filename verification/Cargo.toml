[package]
name = "daytona"
version = "0.1.0"
edition = "2021"
publish = false

[dependencies]
base64 = "0.22"
regex = "1"
serde_json = "1"
tokio = { version = "1", features = ["sync", "rt", "time", "net"] }
tokio-tungstenite = "*"
futures = "0.3"
