[package]
name = "learnwgpu"
version = "0.1.0"
edition = "2021"
publish = false

[dependencies]
winit = { version = "0.29", default-features = false, features = ["rwh_06", "x11"] }
tokio = { version = "1", features = ["rt", "macros"] }
bytemuck = { version = "1", features = ["derive"] }
log = "0.4"
env_logger = { version = "0.11", default-features = false }
