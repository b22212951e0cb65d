[package]
name = "characterai"
version = "0.1.0"
edition = "2021"
publish = false

[dependencies]
async-stream = "*"
base64 = "*"
futures-util = { version = "*", features = ["sink"] }
http = "*"
rand = "*"
reqwest = "*"
serde_json = "*"
thiserror = "*"
tokio = { version = "*", features = ["rt-multi-thread", "macros", "sync", "net"] }
tokio-tungstenite = { version = "*", features = ["native-tls"] }
urlencoding = "*"
uuid = { version = "*", features = ["v4"] }
