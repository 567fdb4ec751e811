[package]
name = "galileo"
version = "0.1.0"
edition = "2021"
publish = false

[dependencies]
regex = "1"
anyhow = "1"
clap = { version = "3", features = ["derive"] }
directories = "4"
futures = "0.3"
humantime = "2"
serenity = { version = "0.11", default-features = false, features = ["client", "cache", "gateway", "model", "rustls_backend"] }
tokio = { version = "1", features = ["rt-multi-thread", "macros", "sync", "time"] }
tracing = "0.1"
