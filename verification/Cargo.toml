[package]
name = "thread_broadcaster"
version = "0.1.0"
edition = "2021"
publish = false

[dependencies]
crossbeam-channel = "*"
tracing = "*"
