[package]
name = "display_test"
version = "0.1.0"
edition = "2021"
publish = false

[dependencies]
eframe = "0.19"
egui = "0.19"
tracing-subscriber = "0.3"
