[package]
name = "chat_session"
version = "0.1.0"
edition = "2021"
publish = false

[dependencies]
dotenvy = "*"
env_logger = "*"
futures-util = "*"
log = "*"
openai = "*"
tokio = { version = "*", features = ["full"] }
tokio-tungstenite = "*"
tungstenite = "*"
