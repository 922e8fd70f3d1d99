[package]
name = "polling-utils"
version = "0.1.0"
edition = "2021"
publish = false

[dependencies]
polling = "2.8"
rustix = "0.37"
async-channel = "1.9"
blocking = "1"
futures-io = "0.3"
