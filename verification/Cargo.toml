[package]
name = "dreamcodec"
version = "0.1.0"
edition = "2021"
publish = false

[dependencies]
regex = "1"
serde = { version = "1", features = ["derive"] }
serde_json = "1"
tokio = { version = "1", features = ["process", "io-util", "fs", "rt-multi-thread", "macros", "time", "sync"] }
uuid = { version = "1", features = ["v4"] }
dirs = "*"
log = "0.4"
log4rs = "1"
anyhow = "1"
thiserror = "*"
futures = "0.3"
reqwest = { version = "0.12", default-features = false, features = ["stream", "rustls-tls"] }
zip = { version = "*", default-features = false, features = ["deflate"] }
