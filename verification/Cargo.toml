[package]
name = "flow_codec"
version = "0.1.0"
edition = "2021"
publish = false

[dependencies]
bytes = "*"
fastrand = "*"
xxhash-rust = { version = "*", features = ["xxh3"] }
tokio-util = { version = "*", features = ["codec"] }
