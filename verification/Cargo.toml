[package]
name = "glasscast"
version = "0.1.0"
edition = "2021"
publish = false

[dependencies]
clap = "*"
failure = "*"
raylib = "*"
serde = { version = "1", features = ["derive"] }
serde_json = "1"
