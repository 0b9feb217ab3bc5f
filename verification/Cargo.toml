[package]
name = "fallback"
version = "0.1.0"
edition = "2021"
publish = false

[dependencies]
fallback-derive = "*"
