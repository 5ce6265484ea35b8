[package]
name = "chatgpt_generative_ai"
version = "0.1.0"
edition = "2021"
publish = false

[dependencies]
futures = "0.3"
http = "1"
reqwest = { version = "0.12", default-features = false, features = ["json", "stream"] }
serde = { version = "1", features = ["derive"] }
serde_json = "1"
thiserror = "1"
tokio = { version = "1", features = ["macros", "rt-multi-thread"] }
