[package]
name = "blue_jacket"
version = "0.1.0"
edition = "2021"
publish = false

[dependencies]
secrecy = "*"
dotenv = "0.15"
tokio = { version = "*", features = ["macros", "rt-multi-thread"] }
tracing = "*"
tracing-subscriber = "*"
