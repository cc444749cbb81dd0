[package]
name = "dbgui"
version = "0.1.0"
edition = "2021"
publish = false

[dependencies]
anyhow = "=1.0.104"
chrono = "=0.4.45"
eframe = { version = "=0.32.3", default-features = false, features = ["default_fonts", "glow", "x11"] }
egui = "=0.32.3"
egui_extras = { version = "=0.32.3", default-features = false, features = ["datepicker"] }
egui_plot = "=0.33.0"
env_logger = { version = "=0.11.11", default-features = false }
futures-util = "=0.3.34"
log = "=0.4.34"
tokio = { version = "=1.54.1", features = ["rt", "net", "sync", "macros"] }
tokio-postgres = { version = "=0.7.18", features = ["with-chrono-0_4"] }
