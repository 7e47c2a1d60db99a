[package]
name = "one_time_share"
version = "0.1.0"
edition = "2021"
publish = false

[dependencies]
uuid = { version = "1", features = ["v4"] }
base64 = "0.22"
serde = { version = "1", features = ["derive"] }
serde_json = "1"
tide = "0.16"
http-types = "2"
async-std = { version = "1", features = ["attributes"] }
