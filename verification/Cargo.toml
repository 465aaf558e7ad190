[package]
name = "car_motion"
version = "0.1.0"
edition = "2021"
publish = false

[dependencies]
bevy = { version = "=0.7.0", default-features = false, features = ["render", "bevy_winit", "x11"] }
bevy-inspector-egui = "=0.11.0"
# bevy's derive macros need syn 1 with its full parser, which this release still turns on
tracing-attributes = "=0.1.23"
