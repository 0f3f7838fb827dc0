[package]
name = "file_per_thread_logger"
version = "0.1.0"
edition = "2021"
publish = false

[dependencies]
env_logger = { version = "0.6", default-features = false }
log = { version = "0.4", features = ["std"] }
