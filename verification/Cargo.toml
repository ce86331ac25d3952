[package]
name = "kaido"
version = "0.1.0"
edition = "2021"
publish = false

[dependencies]
regex = "1"
users = "0.11"
terminal_size = "*"
serde = { version = "1", features = ["derive"] }
serde_json = "1"
serde_yaml = "*"
toml = "*"
anyhow = "1"
dirs = "*"
rusqlite = "*"
