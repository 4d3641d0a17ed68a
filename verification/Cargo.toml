[package]
name = "pomarin"
version = "0.1.0"
edition = "2021"
publish = false

[dependencies]
anyhow = "1.0"
bytemuck = { version = "1.7", features = ["derive"] }
cgmath = "0.18"
dotenv = "0.15"
egui = "0.16"
egui_wgpu_backend = "0.16"
egui_winit_platform = "0.13"
env_logger = "0.9"
epi = "0.16"
image = { version = "0.23", default-features = false, features = ["png", "jpeg"] }
log = "0.4"
pollster = "0.2"
ron = "0.7"
serde = { version = "1.0", features = ["derive"] }
thiserror = "1.0"
tobj = "3.2"
wgpu = "0.12"
winit = "0.26"
