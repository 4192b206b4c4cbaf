[package]
name = "aspawn"
version = "0.2.0"
edition = "2021"
publish = false

[dependencies]
crossbeam-queue = "*"
libc = "*"
tokio = { version = "*", features = ["rt", "net"] }
waitmap = "*"
