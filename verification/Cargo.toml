[package]
name = "alchemind_openai"
version = "0.1.0"
edition = "2021"
publish = false

[dependencies]
async-openai = "=0.28.3"
futures-util = "=0.3.34"
rustler = "=0.36.2"
serde = { version = "=1.0.229", features = ["derive"] }
tokio = { version = "=1.54.1", features = ["rt-multi-thread"] }
