[package]
name = "chatgpt_assistant"
version = "0.1.0"
edition = "2021"
publish = false

[dependencies]
clap = { version = "*", features = ["derive"] }
dirs = "*"
dotenv = "*"
reqwest = { version = "*", default-features = false, features = ["json", "rustls-tls"] }
serde = { version = "*", features = ["derive"] }
serde_yaml = "*"
termion = "*"
tokio = { version = "*", features = ["rt-multi-thread", "macros"] }
