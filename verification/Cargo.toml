[package]
name = "flamegraph"
version = "0.1.0"
edition = "2021"
publish = false

[dependencies]
inferno = { version = "=0.8.0", default-features = false }
signal-hook = "=0.1.17"
