[package]
name = "zenit"
version = "0.1.0"
edition = "2021"
publish = false

[dependencies]
anyhow = "=1.0.104"
thiserror = "=1.0.69"
clap = { version = "=3.2.25", features = ["derive"] }
log = "=0.4.35"
pretty_env_logger = "=0.5.0"
chrono = "=0.4.45"
parking_lot = "=0.12.5"
ahash = "=0.8.12"
once_cell = "=1.21.4"
smallvec = "=1.16.4"
glam = "0.24"
winit = { version = "0.28", default-features = false, features = ["x11"] }
