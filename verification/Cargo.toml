[package]
name = "gemma4_assistant"
version = "0.1.0"
edition = "2021"
publish = false

[dependencies]
regex = "1"
serde = { version = "1", features = ["derive"] }
serde_json = "1"
scraper = "0.29"
base64 = "0.22"
chrono = "0.4"
reqwest = { version = "0.12", features = ["json"] }
tokio = { version = "1", features = ["full"] }
futures = "0.3"
ollama-rs = { version = "0.3", features = ["stream"] }
