[package]
name = "falling_petals"
version = "0.1.0"
edition = "2021"
publish = false

[dependencies]
rand = "0.8"
cgmath = "0.18"
serde = { version = "1", features = ["derive"] }
toml = "0.7"
