[package]
name = "modal_editor"
version = "0.1.0"
edition = "2021"
publish = false

[dependencies]
pollster = "0.3"
winit = { version = "=0.29.15", default-features = false, features = ["x11"] }
