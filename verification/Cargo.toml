[package]
name = "ax"
version = "0.1.0"
edition = "2021"
publish = false

[dependencies]
accessibility = "*"
accessibility-sys = "*"
base64 = "*"
clap = { version = "4", features = ["derive"] }
colored = "*"
core-foundation = "*"
jpeg-encoder = "*"
objc = "*"
png = "*"
screencapturekit = "*"
serde = { version = "1", features = ["derive"] }
serde_json = "1"
thiserror = "*"
