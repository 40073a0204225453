[package]
name = "fileorg"
version = "0.1.0"
edition = "2021"
publish = false

[dependencies]
chrono = "*"
indicatif = "*"
serde = { version = "*", features = ["derive"] }
serde_json = "*"
