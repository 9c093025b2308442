[package]
name = "live_wgsl"
version = "0.1.0"
edition = "2021"
publish = false

[dependencies]
bytemuck = { version = "=1.25.2", features = ["derive"] }
chrono = "=0.4.45"
clap = { version = "=4.6.7", features = ["derive"] }
pollster = "=0.4.0"
tokio = { version = "=1.54.1", features = ["macros", "rt-multi-thread", "time"] }
wgpu = { version = "=25.0.2", features = ["noop"] }
winit = "=0.30.13"
