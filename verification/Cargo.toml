[package]
name = "egui_theme_switcher"
version = "0.1.0"
edition = "2021"
publish = false

[dependencies]
egui = { version = "=0.30.0", default-features = false }
egui_material_icons = "=0.2.0"
