[package]
name = "tiptoe"
version = "0.1.0"
edition = "2021"
publish = false

[dependencies]
abort = "*"
tap = "1"
