[package]
name = "rust_tower"
version = "0.1.0"
edition = "2021"
publish = false

[dependencies]
rand = "0.9"
notify-rust = "4"
