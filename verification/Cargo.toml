[package]
name = "resonance_gui"
version = "0.1.0"
edition = "2021"
publish = false

[dependencies]
egui_plot = "0.29"
egui-theme-switch = "0.2"
image = { version = "0.25", default-features = false, features = ["png"] }
preferences = "1.1"
serde = { version = "1", features = ["derive"] }
serialport = { version = "4", default-features = false }
