[package]
name = "indexer_bot"
version = "0.1.0"
edition = "2021"
publish = false

[dependencies]
serde_json = "1"
tokio = { version = "1", features = ["rt-multi-thread", "macros", "sync"] }
tokio-tungstenite = "*"
futures-util = "0.3"
log = "0.4"
env_logger = "*"
dotenv = "0.15"
