[package]
name = "ut61eplus-lib"
version = "0.1.0"
edition = "2021"
publish = false

[dependencies]
hidapi = { version = "2.6", default-features = false, features = ["linux-native-basic-udev"] }
thiserror = "2"
log = "0.4"
env_logger = "0.11"
eframe = { version = "=0.29.1", default-features = false, features = ["default_fonts", "glow", "x11"] }
egui_plot = "=0.29.0"
