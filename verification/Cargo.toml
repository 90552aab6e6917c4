[package]
name = "lumina_vad"
version = "0.1.0"
edition = "2021"
publish = false

[dependencies]
webrtc-vad = "*"
serde = { version = "*", features = ["derive"] }
serde_json = "*"
base64 = "*"
