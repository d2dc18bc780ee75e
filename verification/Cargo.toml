[package]
name = "game_core"
version = "0.1.0"
edition = "2021"
publish = false

[dependencies]
clap = { version = "4", features = ["derive"] }
noise = "0.9"
rand = "0.9"
serde = { version = "1", features = ["derive"] }
