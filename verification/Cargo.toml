[package]
name = "multimeter_gui"
version = "0.1.0"
edition = "2021"
publish = false

[dependencies]
serde = { version = "1", features = ["derive"] }
serde_json = "1"
chrono = "0.4"
rust-i18n = "4"
egui = "=0.37.0"
eframe = { version = "=0.37.0", default-features = false, features = ["glow", "x11", "persistence", "default_fonts"] }
