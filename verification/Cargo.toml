[package]
name = "awg_remote"
version = "0.1.0"
edition = "2021"
publish = false

[dependencies]
serialport = { version = "=4.10.1", default-features = false }

[dev-dependencies]
serde_json = "=1.0.151"
