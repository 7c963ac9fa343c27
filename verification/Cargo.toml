[package]
name = "greeting_card"
version = "0.1.0"
edition = "2021"
publish = false

[dependencies]
base64 = "0.13"
image = "0.23"
imageproc = "0.22"
rusttype = "0.9"
serde = { version = "1", features = ["derive"] }
serde_json = "1"
