[package]
name = "log_size"
version = "0.1.0"
edition = "2021"
publish = false

[dependencies]
regex = "1"
threadpool = "1"
