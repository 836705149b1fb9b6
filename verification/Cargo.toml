[package]
name = "layer_shell_wgpu_egui"
version = "0.1.0"
edition = "2021"
publish = false

[dependencies]
egui = "=0.27.2"
egui-wgpu = "=0.27.2"
wgpu = "=0.19.4"
smithay-client-toolkit = { version = "=0.18.1", default-features = false, features = ["calloop"] }
wayland-client = "=0.31.15"
wayland-backend = { version = "=0.3.17", features = ["client_system", "dlopen"] }
raw-window-handle = "=0.6.2"
pollster = "=0.3.0"
thiserror = "=1.0.69"
env_logger = "=0.11.11"
