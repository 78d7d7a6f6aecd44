[package]
name = "composite_logger"
version = "0.1.0"
edition = "2021"

[dependencies]
log = { version = "=0.4.34", features = ["std"] }
