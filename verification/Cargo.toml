[package]
name = "wgsl_fft"
version = "0.4.3"
edition = "2021"
publish = false

[dependencies]
bytemuck = { version = "=1.25.2", features = ["derive"] }
wgpu = "=29.0.4"
pollster = "=0.3.0"
num-complex = "=0.4.6"
rustfft = "=6.4.1"
thiserror = "=2.0.21"
anyhow = "=1.0.104"
cudarc = { version = "=0.19.10", default-features = false, features = ["std", "driver", "cufft", "cuda-12060", "dynamic-loading"] }
wgsl-ping-pong-pipeline = "=0.1.1"
