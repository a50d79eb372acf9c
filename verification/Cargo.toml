[package]
name = "cashcode"
version = "0.1.0"
edition = "2021"
publish = false

[dependencies]
serialport = { version = "4", default-features = false }
thiserror = "2"
log = "0.4"
env_logger = { version = "0.11", default-features = false }
