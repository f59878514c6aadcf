[package]
name = "microvmi"
version = "0.1.0"
edition = "2021"
publish = false

[dependencies]
cty = "0.2"
env_logger = "0.7"
kvmi = "*"
log = "0.4"
