[package]
name = "voice_input"
version = "0.1.0"
edition = "2021"
publish = false

[dependencies]
anyhow = "1"
futures-util = "0.3"
hex = "0.4"
md5 = "0.7"
opus = "0.3"
prost = { version = "0.12", default-features = false, features = ["std"] }
rand = "0.8"
reqwest = { version = "0.11", default-features = false, features = ["json"] }
serde = { version = "1", features = ["derive"] }
serde_json = "1"
tokio = { version = "1", features = ["rt", "sync", "time"] }
tokio-tungstenite = "0.21"
toml = "0.8"
tracing = "0.1"
uuid = { version = "1", features = ["v4"] }
