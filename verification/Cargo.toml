[package]
name = "ice"
version = "0.1.0"
edition = "2021"
publish = false

[dependencies]
stun = "0.8"
rand = "0.8"
tokio = { version = "1", features = ["sync", "time", "rt", "net"] }
webrtc-util = "0.11"
