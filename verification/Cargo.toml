[package]
name = "discord_handler"
version = "0.1.0"
edition = "2021"
publish = false

[dependencies]
serenity = { version = "0.12", default-features = false, features = ["builder", "cache", "client", "gateway", "http", "model", "rustls_backend"] }
tokio = { version = "1", features = ["rt", "sync", "time"] }
tracing = "0.1"
