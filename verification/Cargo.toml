[package]
name = "oscamp"
version = "0.1.0"
edition = "2021"
publish = false

[dependencies]
crossterm = "*"
notify = "*"
serde = { version = "1", features = ["derive"] }
toml = "*"
