[package]
name = "render_bridge"
version = "0.1.0"
edition = "2021"
publish = false

[dependencies]
anyhow = "=1.0.104"
base64 = "=0.21.7"
bytemuck = { version = "=1.25.2", features = ["derive"] }
dolly = "=0.4.3"
egui = "=0.21.0"
egui_wgpu_backend = "=0.23.0"
egui_winit_platform = "=0.18.0"
glam = { version = "=0.25.0", features = ["bytemuck"] }
goth-gltf = { version = "=0.1.2", features = ["primitive_reader"] }
hassle-rs = "=0.10.0"
ktx2 = "=0.3.0"
libloading = "=0.7.4"
log = "=0.4.34"
pollster = "=0.3.0"
rayon = "=1.12.0"
spirq = "=0.6.4"
spirv = "=0.2.0"
structopt = "=0.3.26"
wgpu = { version = "=0.16.3", features = ["spirv"] }
winit = "=0.28.7"
zstd = "=0.12.4"
