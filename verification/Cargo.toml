[package]
name = "easy_ipc"
version = "0.1.0"
edition = "2021"
publish = false

[dependencies]
bitcode = { version = "0.6", features = ["serde"] }
serde = { version = "1", features = ["derive"] }
interprocess = "2"
dirs = "5"
signal-hook = "0.3"
libc = "0.2"
users = "0.11"
