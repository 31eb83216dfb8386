[package]
name = "bebeu_engine"
version = "0.1.0"
edition = "2021"
publish = false

[dependencies]
anyhow = "1"
rand = "0.9"
serde = { version = "1", features = ["derive"] }
serde-saphyr = "*"
tracing = "0.1"
