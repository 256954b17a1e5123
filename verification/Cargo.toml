[package]
name = "aibar"
version = "0.1.0"
edition = "2021"
publish = false

[dependencies]
auto-launch = "0.5"
serde = { version = "1", features = ["derive"] }
serde_json = "1"
