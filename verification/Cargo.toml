[package]
name = "isosurf"
version = "0.1.0"
edition = "2021"
publish = false

[dependencies]
winit = { version = "0.29", default-features = false, features = ["x11"] }
egui = { version = "0.26", default-features = false }
egui-winit = { version = "0.26", default-features = false }
pollster = "0.3"
glam = "0.25"
zerocopy = "0.7"
