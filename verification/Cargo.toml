[package]
name = "trisvg"
version = "0.1.0"
edition = "2021"
publish = false

[dependencies]
lyon = "0.17"
svg = "*"
