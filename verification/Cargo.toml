[package]
name = "nova_loader"
version = "0.1.0"
edition = "2021"
publish = false

[dependencies]
serde = { version = "=1.0.229", features = ["derive"] }
serde_json = "=1.0.154"
sha2 = "=0.10.9"
reqwest = { version = "=0.12.28", default-features = false, features = ["blocking", "json", "rustls-tls"] }
eframe = { version = "=0.37.0", default-features = false, features = ["default_fonts", "glow", "x11"] }
glutin = "=0.32.3"
glutin-winit = "=0.5.0"
raw-window-handle = "=0.6.2"
glium = "=0.35.0"
imgui = "=0.12.0"
imgui-glium-renderer = "=0.13.0"
imgui-winit-support = "=0.13.0"
image = { version = "=0.25.10", default-features = false, features = ["png"] }
