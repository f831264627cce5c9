[package]
name = "render_core"
version = "0.1.0"
edition = "2021"
publish = false

[dependencies]
ash = "0.37"
ash-window = "0.12"
gpu-allocator = { version = "0.22", default-features = false, features = ["vulkan"] }
log = "0.4"
num = "0.4"
raw-window-handle = "0.5"
simplelog = "0.12"
winit = { version = "0.28", default-features = false, features = ["x11"] }
