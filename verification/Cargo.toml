[package]
name = "wechatbot"
version = "0.1.0"
edition = "2021"
publish = false

[dependencies]
dirs-next = "2"
hex = "0.4"
md-5 = "*"
rand = "*"
serde = { version = "1", features = ["derive"] }
serde_json = "1"
tokio = { version = "1", features = ["fs", "rt", "sync", "time"] }
tracing = "0.1"
