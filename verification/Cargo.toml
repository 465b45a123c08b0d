[package]
name = "emulator"
version = "0.1.0"
edition = "2021"
publish = false

[dependencies]
anyhow = "1"
clap = { version = "4", features = ["derive"] }
miette = "7"
pretty_env_logger = "0.5"
rand = "0.8"
rodio = { version = "0.20", default-features = false }
thiserror = "1"
winit = { version = "0.30", default-features = false, features = ["rwh_06", "x11"] }
