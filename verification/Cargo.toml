[package]
name = "polybar_reddit"
version = "0.1.0"
edition = "2021"
publish = false

[dependencies]
anyhow = "*"
crossbeam-channel = "*"
dirs = "*"
env_logger = "*"
log = "*"
rustop = "*"
serde = { version = "*", features = ["derive"] }
threadpool = "*"
toml = "*"
ureq = { version = "*", features = ["json"] }
