[package]
name = "pointer"
version = "0.1.0"
edition = "2021"
publish = false

[dependencies]
base64 = "0.22"
serde = { version = "1", features = ["derive"] }
serde_json = "1"
cocoa = "0.26"
objc = "0.2"
dispatch = "0.2"
