[package]
name = "clipwhisper"
version = "0.1.0"
edition = "2021"
publish = false

[dependencies]
anstyle = "1"
anyhow = "1"
clap = { version = "4", features = ["derive"] }
env_logger = "*"
interpolator = "*"
log = "0.4"
