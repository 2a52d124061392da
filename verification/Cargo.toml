[package]
name = "nokhwa"
version = "0.1.0"
edition = "2021"
publish = false

[dependencies]
mozjpeg = { version = "=0.10.13", default-features = false }
flume = "=0.12.0"
