[package]
name = "hackeeg"
version = "0.1.0"
edition = "2021"
publish = false

[dependencies]
serde_json = "*"
serialport = { version = "*", default-features = false }
clap = "*"
log = "*"
