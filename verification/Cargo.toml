[package]
name = "gpu_command_bridge"
version = "0.1.0"
edition = "2021"
publish = false

[dependencies]
serde = { version = "1", features = ["derive"] }
wgpu-types = "*"
wgpu-core = "*"
