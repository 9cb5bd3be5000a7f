[package]
name = "wp_linux"
version = "0.1.0"
edition = "2021"
publish = false

[dependencies]
chrono = "=0.4.45"
dirs = "=7.0.0"
eframe = { version = "=0.37.0", default-features = false, features = ["default_fonts", "wgpu", "wayland", "x11"] }
env_logger = { version = "=0.11.11", default-features = false }
glyphon = "=0.12.0"
image = { version = "=0.25.10", default-features = false, features = ["bmp", "gif", "jpeg", "png", "webp"] }
log = "=0.4.35"
pollster = "=1.0.1"
raw-window-handle = "=0.6.2"
rfd = "=0.17.2"
serde = { version = "=1.0.229", features = ["derive"] }
serde_json = "=1.0.154"
smithay-client-toolkit = { version = "=0.21.1", default-features = false }
tiny_http = "=0.12.0"
wayland-client = "=0.31.15"
wgpu = "=30.0.1"
x11rb = { version = "=0.14.0", features = ["randr"] }
zbus = "=6.2.1"
