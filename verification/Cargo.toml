[package]
name = "passthrough_async"
version = "0.1.0"
edition = "2021"
publish = false

[dependencies]
async-trait = "0.1"
libc = "0.2"
tokio = { version = "1", features = ["rt"] }
