[package]
name = "downloads_backend"
version = "0.1.0"
edition = "2021"
publish = false

[dependencies]
base64 = "0.13"
chrono = "0.4"
dirs = "5"
serde = { version = "1", features = ["derive"] }
