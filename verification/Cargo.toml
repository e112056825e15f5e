[package]
name = "sikte"
version = "0.1.0"
edition = "2021"
publish = false

[dependencies]
anyhow = "*"
aya = "*"
aya-log = "*"
clap = { version = "*", features = ["derive"] }
env_logger = "*"
libc = "*"
log = "*"
thiserror = "*"
tokio = { version = "*", features = ["full"] }
