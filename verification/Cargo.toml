[package]
name = "ip-command"
version = "0.1.0"
edition = "2021"
publish = false

[dependencies]
futures = "0.3"
serde = { version = "1.0", features = ["derive"] }
serde-command-opts = "*"
serde_json = "1.0"
snafu = "0.6"
tokio = { version = "0.2", features = ["process", "io-util", "time", "stream"] }
