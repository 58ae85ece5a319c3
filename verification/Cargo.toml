[package]
name = "bot_george"
version = "0.1.0"
edition = "2021"
publish = false

[dependencies]
anyhow = "*"
dispose = "*"
log = "*"
serde = { version = "*", features = ["derive"] }
serenity = "0.12"
tokio = { version = "1", features = ["rt", "rt-multi-thread", "macros"] }
toml = "*"
