[package]
name = "dynlib_builder"
version = "0.1.0"
edition = "2021"
publish = false

[dependencies]
anyhow = "*"
cc = "*"
clap = { version = "*", features = ["derive"] }
log = "*"
pretty_env_logger = "*"
