[package]
name = "jukebox"
version = "0.1.0"
edition = "2021"
publish = false

[dependencies]
bytes = "1"
serde = { version = "1", features = ["derive"] }
thiserror = "1"
die = "*"
config = "0.11"
