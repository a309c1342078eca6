[package]
name = "cyber_range"
version = "0.1.0"
edition = "2021"
publish = false

[dependencies]
env_logger = "0.7"
failure = "0.1"
log = "0.4"
num-traits = "0.2"
