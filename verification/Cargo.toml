[package]
name = "rl_extract"
version = "0.1.0"
edition = "2021"
publish = false

[dependencies]
boxcars = "*"
serde = { version = "1", features = ["derive"] }
serde_json = "1"
