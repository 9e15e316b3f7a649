[package]
name = "push_to_talk"
version = "0.1.0"
edition = "2021"
publish = false

[dependencies]
anyhow = "1"
base64 = "0.22"
cpal = "0.15"
dirs = "5"
futures-util = "0.3"
hound = "3.5"
reqwest = { version = "0.12", default-features = false, features = ["json", "multipart", "native-tls"] }
serde = { version = "1", features = ["derive"] }
serde_json = "1"
tokio = { version = "1", features = ["rt-multi-thread", "macros", "sync", "time", "fs", "net"] }
tokio-tungstenite = { version = "0.21", features = ["native-tls"] }
tracing = "0.1"
tracing-subscriber = "0.3"
