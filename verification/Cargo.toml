[package]
name = "plunger"
version = "0.1.0"
edition = "2021"
publish = false

[dependencies]
crc = "2.1"
lazy_static = "1.4"
napi = { version = "1", features = ["napi4", "tokio_rt", "serde-json"] }
napi-derive = "1"
probe-rs = "0.13"
serde = { version = "1", features = ["derive"] }
serde_with = { version = "1", features = ["hex"] }
thiserror = "1"
tokio = { version = "1", features = ["rt", "time"] }
udev = "0.6"
