[package]
name = "desktop_shortcut"
version = "0.1.0"
edition = "2021"
publish = false

[dependencies]
dirs = "=5.0.1"
eframe = { version = "=0.24.1", default-features = false, features = ["default_fonts", "glow", "x11"] }
rfd = { version = "=0.14.1", default-features = false, features = ["xdg-portal", "tokio"] }
