[package]
name = "pylon_cxx"
version = "0.1.0"
edition = "2021"
publish = false

[dependencies]
cxx = "1"
tokio = { version = "1", features = ["rt", "net"] }
tokio-stream = "0.1"
