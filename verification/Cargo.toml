[package]
name = "uplink"
version = "0.1.0"
edition = "2021"
publish = false

[dependencies]
base64 = "0.21"
mime = "0.3"
uuid = "1"
futures = "0.3"
