[package]
name = "pool_session"
version = "0.1.0"
edition = "2021"
publish = false

[dependencies]
aries-askar = { version = "*", default-features = false }
serde = { version = "1", features = ["derive"] }
serde_json = "1"
thiserror = "1"
tokio = { version = "1", features = ["sync", "rt"] }
uniffi = { version = "*", features = ["tokio"] }
