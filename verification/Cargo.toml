[package]
name = "forever"
version = "0.1.0"
edition = "2021"
publish = false

[dependencies]
crossbeam-channel = "*"
clap = "*"
serde = { version = "*", features = ["derive"] }
toml = "*"
