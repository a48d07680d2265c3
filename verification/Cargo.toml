[package]
name = "learning_chatbot"
version = "0.1.0"
edition = "2021"
publish = false

[dependencies]
chrono = "=0.4.45"
dotenv = "=0.15.0"
reqwest = { version = "=0.12.28", features = ["json"] }
scraper = "=0.29.0"
serde_json = "=1.0.154"
tokio = { version = "=1.54.1", features = ["full"] }
