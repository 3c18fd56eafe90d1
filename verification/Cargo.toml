[package]
name = "request_line"
version = "0.1.0"
edition = "2021"
publish = false

[dependencies]
nom = "7.1"
