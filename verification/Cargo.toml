[package]
name = "ingest"
version = "0.1.0"
edition = "2021"
publish = false

[dependencies]
futures = "0.3"
hex = "0.4"
log = "0.4"
rand = "0.8"
reqwest = { version = "0.12", features = ["json"] }
serde_json = { version = "1", features = ["preserve_order"] }
tokio = { version = "1", features = ["net", "rt", "sync"] }
tokio-tungstenite = { version = "*", features = ["native-tls"] }
tokio-util = { version = "0.7", features = ["codec"] }
