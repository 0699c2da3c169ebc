[package]
name = "chat_relay"
version = "0.1.0"
edition = "2021"
publish = false

[dependencies]
async-openai = { version = "=0.42.1", features = ["chat-completion", "audio", "image"] }
base64 = "=0.23.1"
reqwest = "=0.13.5"
serde = { version = "=1.0.229", features = ["derive"] }
serde_json = "=1.0.151"
serenity = "=0.12.5"
shell-words = "=1.1.1"
tokio = { version = "=1.53.2", features = ["rt-multi-thread", "macros"] }
which = "=8.0.6"
