[package]
name = "client_info"
version = "0.1.0"
edition = "2021"
publish = false

[dependencies]
rocket = { version = "0.5", default-features = false }
serde = { version = "1", features = ["derive"] }
