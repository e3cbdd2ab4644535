[package]
name = "request_response"
version = "0.1.0"
edition = "2021"
publish = false

[dependencies]
futures = "0.3"
futures-timer = "3"
instant = "0.1"
smallvec = "1"
