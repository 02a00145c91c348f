[package]
name = "msim"
version = "0.1.0"
edition = "2021"
publish = false

[dependencies]
async-task = "4"
backtrace = "0.3"
futures = "0.3"
rand = "0.8"
tokio = { version = "1", features = ["sync", "macros"] }
tracing = "0.1"
