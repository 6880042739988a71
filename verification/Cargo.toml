[package]
name = "portal_screencast"
version = "0.1.0"
edition = "2021"
publish = false

[dependencies]
tokio = { version = "*", features = ["macros", "rt"] }
zbus = "*"
wayland-client = "*"
