[package]
name = "gi_ui_app"
version = "0.1.0"
edition = "2021"
publish = false

[dependencies]
x11rb = "*"
