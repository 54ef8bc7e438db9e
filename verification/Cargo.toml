[package]
name = "file_explorer"
version = "0.1.0"
edition = "2021"
publish = false

[dependencies]
eframe = { version = "=0.31.1", default-features = false, features = ["default_fonts", "glow"] }
egui_extras = { version = "=0.31.1", default-features = false, features = ["file", "svg"] }
glutin-winit = { version = "=0.5.0", default-features = false, features = ["egl", "glx", "x11"] }
display-info = "=0.5.2"
windows = { version = "=0.56.0", features = ["Win32_Storage_FileSystem"] }
