[package]
name = "llm_core"
version = "0.1.0"
edition = "2021"
publish = false

[dependencies]
base64 = "=0.23.1"
image = "=0.25.10"
uuid = { version = "=1.27.0", features = ["v4"] }
async-openai = { version = "=0.42.1", features = ["chat-completion"] }
tokio = { version = "*", features = ["rt-multi-thread", "macros", "sync", "time"] }
tokio-stream = "*"
serde = { version = "*", features = ["derive"] }
serde_json = "*"
dirs = "*"
dotenvy = "*"
