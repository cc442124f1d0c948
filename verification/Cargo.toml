[package]
name = "winit_gtk4"
version = "0.1.0"
edition = "2021"
publish = false

[dependencies]
dpi = "*"
gtk4 = "*"
winit-core = "*"
xkbcommon-dl = "*"
