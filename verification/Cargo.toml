[package]
name = "upmemo"
version = "0.1.0"
edition = "2021"
publish = false

[dependencies]
font-kit = "=0.14.3"
global-hotkey = "=0.8.0"
serde = { version = "=1.0.229", features = ["derive"] }
serde_json = "=1.0.154"
