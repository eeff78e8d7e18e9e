[package]
name = "chordie"
version = "0.1.0"
edition = "2021"
publish = false

[dependencies]
midir = "*"
serde = { version = "*", features = ["derive"] }
serde_json = "*"
