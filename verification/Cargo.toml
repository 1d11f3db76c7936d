[package]
name = "ui_bridge"
version = "0.1.0"
edition = "2021"
publish = false

[dependencies]
mlua = { version = "*", features = ["lua54", "vendored"] }
eframe = { version = "*", default-features = false, features = ["glow", "x11", "persistence"] }
egui = "*"
serde = { version = "*", features = ["derive"] }
