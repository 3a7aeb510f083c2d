[package]
name = "raam"
version = "0.1.0"
edition = "2021"
publish = false

[dependencies]
bytemuck = { version = "=1.25.2", features = ["derive"] }
datafusion = { version = "=55.2.0", default-features = false, features = ["sql"] }
env_logger = "=0.11.11"
glyphon = "0.5"
tokio = { version = "=1.54.1", features = ["rt", "sync"] }
wgpu = "0.19"
