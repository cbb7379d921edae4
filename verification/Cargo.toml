[package]
name = "request_proxy"
version = "0.1.0"
edition = "2021"
publish = false

[dependencies]
log = "*"
reqwest = { version = "*", default-features = false }
serde = { version = "*", features = ["derive"] }
uuid = { version = "*", features = ["v4"] }
