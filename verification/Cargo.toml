[package]
name = "shippr"
version = "0.1.0"
edition = "2021"
publish = false

[dependencies]
yaml-rust2 = "*"
clap = { version = "4", features = ["derive"] }
tracing = "*"
tracing-subscriber = "*"
