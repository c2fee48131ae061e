[package]
name = "collected"
version = "0.1.0"
edition = "2021"
publish = false

[dependencies]
min-max-heap = "*"
indexmap = "*"
