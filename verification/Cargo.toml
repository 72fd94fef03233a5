[package]
name = "isymtope"
version = "0.1.0"
edition = "2021"
publish = false

[dependencies]
linked-hash-map = "0.5"
uuid = { version = "1", features = ["v4"] }
itertools = "0.13"
time = "0.1"
