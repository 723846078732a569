[package]
name = "sink"
version = "0.1.0"
edition = "2021"
publish = false

[dependencies]
log = "=0.4.35"
env_logger = { version = "=0.11.11", default-features = false }
tiny_http = "=0.12.0"
