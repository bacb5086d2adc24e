[package]
name = "wgpu_utils"
version = "0.1.0"
edition = "2021"
publish = false

[dependencies]
anyhow = "*"
bytemuck = { version = "*", features = ["derive"] }
image = { version = "*", default-features = false, features = ["jpeg", "png"] }
pollster = "*"
wgpu = "*"
