[package]
name = "prompt_flow"
version = "0.1.0"
edition = "2021"
publish = false

[dependencies]
async-openai = { version = "=0.42.2", features = ["chat-completion"] }
serde = "=1.0.229"
serde_json = "=1.0.154"
thiserror = "=2.0.21"
tokio = { version = "=1.54.1", default-features = false, features = ["time"] }
