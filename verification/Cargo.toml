[package]
name = "trail"
version = "0.1.0"
edition = "2021"
publish = false

[dependencies]
chrono = "=0.4.45"
rand = "=0.10.3"
redux-rs = "=0.1.0"
