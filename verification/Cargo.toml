[package]
name = "cedar_detect_server"
version = "0.1.0"
edition = "2021"
publish = false

[dependencies]
clap = { version = "*", features = ["derive"] }
env_logger = "*"
image = "*"
imageproc = "*"
log = "*"
prost-types = "*"
tokio = { version = "*", features = ["full"] }
tonic = "*"
tonic-web = "*"
