[package]
name = "chat_app"
version = "0.1.0"
edition = "2021"
publish = false

[dependencies]
bytes = "1"
crossterm = "0.28"
dotenv = "0.15"
futures = "0.3"
rand = "0.8"
tokio = { version = "1", features = ["full"] }
tracing = "0.1"
tracing-subscriber = "0.3"

[dev-dependencies]
bincode = "2"
