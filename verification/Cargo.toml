[package]
name = "icy_animation"
version = "0.1.0"
edition = "2021"
publish = false

[dependencies]
mlua = { version = "0.9", features = ["lua54", "vendored"] }
regex = "1"
web-time = "1"
egui = "0.24"
egui_glow = "0.24"
glow = "0.12"
image = { version = "0.24", default-features = false, features = ["png", "jpeg", "gif", "bmp"] }
log = "0.4"
serde = { version = "1", features = ["derive"] }
