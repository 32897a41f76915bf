[package]
name = "crunch"
version = "0.1.0"
edition = "2021"
publish = false

[dependencies]
tokio = { version = "1", features = ["rt-multi-thread", "macros", "time", "signal", "sync"] }
tokio-util = { version = "0.7" }
env_logger = { version = "0.11", default-features = false }
log = { version = "0.4" }
