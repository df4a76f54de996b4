[package]
name = "chat_gateway"
version = "0.1.0"
edition = "2021"
publish = false

[dependencies]
gemini-rust = "*"
serde = { version = "*", features = ["derive"] }
anyhow = "*"
tracing = "*"

[dev-dependencies]
serde_json = "*"
