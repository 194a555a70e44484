[package]
name = "opencode_server"
version = "0.1.0"
edition = "2021"
publish = false

[dependencies]
portpicker = "*"
serde = { version = "1", features = ["derive"] }
