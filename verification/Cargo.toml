[package]
name = "z_color_picker"
version = "0.1.0"
edition = "2021"
publish = false

[dependencies]
emath = "0.31"
ecolor = "0.31"
eframe = { version = "0.31", default-features = false, features = ["default_fonts", "glow", "x11", "persistence"] }
egui_tiles = "0.12"
egui_extras = { version = "0.31", default-features = false }
serde = { version = "1", features = ["derive"] }
serde_json = "1"
arboard = { version = "3", default-features = false, features = ["image-data"] }
log = "0.4"
env_logger = "0.11"
splines = "4"
palette = { version = "0.7", default-features = false, features = ["std"] }
bspline = "1"
num-integer = "0.1"
