[package]
name = "espanso_manager"
version = "0.0.1"
edition = "2021"
publish = false

[dependencies]
serde = { version = "1", features = ["derive"] }
serde_json = "1"
serde_norway = "*"
