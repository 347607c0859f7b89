[package]
name = "resty"
version = "0.1.0"
edition = "2021"
publish = false

[dependencies]
chrono = "0.4"
uuid = { version = "1", features = ["v4"] }
dirs = "*"
dark-light = "1"
serde = { version = "1", features = ["derive"] }
serde_json = "1"
