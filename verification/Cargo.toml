[package]
name = "jjs"
version = "0.1.0"
edition = "2021"
publish = false

[dependencies]
uuid = { version = "1", features = ["v4"] }
base64 = "0.13"
serde = { version = "1", features = ["derive"] }
serde_json = "1"
libc = "0.2"
