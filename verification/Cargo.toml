[package]
name = "autopilot"
version = "0.1.0"
edition = "2021"
publish = false

[dependencies]
yaml-rust = "0.4"
egui = { version = "0.23", default-features = false }
eframe = { version = "0.23", default-features = false, features = ["glow"] }
rust_math = "*"
