[package]
name = "zingo_bridge"
version = "0.1.0"
edition = "2021"
publish = false

[dependencies]
http = "=1.5.0"
json = "=0.12.4"
lazy_static = "=1.5.1"
neon = "=1.1.2"
tokio = { version = "=1.54.1", features = ["rt-multi-thread"] }
zingolib = { version = "=7.0.0", features = ["perspective"] }
