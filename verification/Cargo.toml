[package]
name = "egui_terminal"
version = "0.1.0"
edition = "2021"
publish = false

[dependencies]
termwiz = "0.23.3"
portable-pty = "0.9.0"
egui = { version = "0.36.2", default-features = false }
eframe = { version = "0.36.2", default-features = false, features = ["glow", "x11"] }
