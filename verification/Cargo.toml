[package]
name = "niconico"
version = "0.1.0"
edition = "2021"
publish = false

[dependencies]
reqwest = { version = "0.12", default-features = false }
secrecy = "0.8"
serde = { version = "1", features = ["derive"] }
thiserror = "1"
