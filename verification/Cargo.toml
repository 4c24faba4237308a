[package]
name = "mbti_net"
version = "0.1.0"
edition = "2021"
publish = false

[dependencies]
easy-ml = { version = "=2.2.0", features = ["serde"] }
serde = { version = "=1.0.229", features = ["derive"] }
serde_json = "=1.0.151"
