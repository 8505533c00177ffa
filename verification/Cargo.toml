[package]
name = "clover_viewer"
version = "0.1.0"
edition = "2021"
publish = false

[dependencies]
sys-locale = "*"
num_cpus = "*"
serde = { version = "1", features = ["derive"] }
serde_json = "1"
dirs = "*"
lru = "*"
egui = "*"
eframe = { version = "0.37", default-features = false, features = ["default_fonts", "glow", "x11"] }
global-hotkey = "*"
image = { version = "0.25", default-features = false, features = ["png", "jpeg"] }
kamadak-exif = "*"
zune-jpeg = "*"
rayon = "*"
tracing = "*"
tracing-subscriber = { version = "*", features = ["env-filter"] }
single-instance = "*"
futures = "*"
