[package]
name = "async-runtime"
version = "0.1.0"
edition = "2021"
publish = false

[dependencies]
crossbeam-channel = "=0.5.17"
futures = { version = "=0.3.34", features = ["thread-pool"] }
log = "=0.4.34"
