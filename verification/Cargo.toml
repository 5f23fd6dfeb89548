[package]
name = "figure_debugger"
version = "0.1.0"
edition = "2021"
publish = false

[dependencies]
egui = "=0.31.1"
egui_file = "0.22"
egui-macroquad = "=0.17.3"
macroquad = "=0.4.16"
geo-aid-internal = "=0.7.1"
