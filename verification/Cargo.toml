[package]
name = "downtime"
version = "0.1.0"
edition = "2021"
publish = false

[dependencies]
anyhow = "*"
chrono = "*"
elevated-command = "*"
serde = { version = "*", features = ["derive"] }
toml = "*"
winapi = { version = "*", features = ["winuser"] }
