[package]
name = "qbezier"
version = "0.1.0"
edition = "2021"
publish = false

[dependencies]
bytemuck = { version = "=1.25.2", features = ["derive"] }
cgmath = "=0.18.0"
encase = { version = "=0.9.0", features = ["cgmath"] }
env_logger = { version = "=0.11.11", default-features = false }
futures = "=0.3.34"
log = "=0.4.34"
tokio = { version = "=1.54.1", default-features = false, features = ["macros", "rt", "sync"] }
wgpu = { version = "=22.1.0", default-features = false, features = ["wgsl"] }
winit = { version = "0.30", default-features = false, features = ["rwh_06", "x11"] }
