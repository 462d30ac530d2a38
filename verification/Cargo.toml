[package]
name = "rust_audio"
version = "0.1.0"
edition = "2021"
publish = false

[dependencies]
anyhow = "1"
arc-swap = "1"
cpal = "0.15"
crossbeam-channel = "0.5"
dashmap = "6"
lazy_static = "1"
