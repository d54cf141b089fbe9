[package]
name = "nessers"
version = "0.1.0"
edition = "2021"
publish = false

[dependencies]
cpal = "=0.13.5"
docopt = "=1.1.1"
egui = "=0.16.1"
egui_memory_editor = "=0.2.0"
egui_wgpu_backend = "=0.16.0"
egui-winit = "=0.16.0"
env_logger = "=0.9.3"
log = "=0.4.35"
pixels = "=0.9.0"
serde = { version = "=1.0.229", features = ["derive"] }
winit = "=0.26.1"
winit_input_helper = "=0.11.1"
