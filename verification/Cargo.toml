[package]
name = "lexpr"
version = "0.1.0"
edition = "2021"
publish = false

[dependencies]
deep_safe_drop = "0.1"
