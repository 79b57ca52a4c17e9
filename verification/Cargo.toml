[package]
name = "stelliberty"
version = "0.1.0"
edition = "2021"
publish = false

[dependencies]
anyhow = "1"
log = "0.4"
rinf = "*"
serde = { version = "1", features = ["derive"] }
tokio = { version = "1", features = ["full"] }
