[package]
name = "connection_pool"
version = "0.1.0"
edition = "2021"
publish = false

[dependencies]
scheduled-thread-pool = "0.2"
