[package]
name = "skia_wgpu_surface"
version = "0.1.0"
edition = "2021"
publish = false

[dependencies]
raw-window-handle = "=0.6.2"
wgpu = { version = "=28.0.0", default-features = false, features = ["std", "vulkan", "metal", "dx12"] }
