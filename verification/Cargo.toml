[package]
name = "chat_conformance"
version = "0.1.0"
edition = "2021"
publish = false

[dependencies]
anyhow = "=1.0.104"
async-openai = { version = "=0.42.2", default-features = false, features = ["chat-completion"] }
futures = "=0.3.34"
tokio = { version = "=1.54.1", features = ["macros", "rt-multi-thread"] }
