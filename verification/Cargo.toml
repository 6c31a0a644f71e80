[package]
name = "ki-core"
version = "0.1.0"
edition = "2021"
publish = false

[dependencies]
rdkafka = { version = "*", default-features = false }
tokio = { version = "1", features = ["rt-multi-thread", "time", "sync", "macros"] }
log = "0.4"
env_logger = { version = "0.11", default-features = false }
eframe = { version = "0.29.1", default-features = false, features = ["glow", "x11", "default_fonts"] }
egui_extras = { version = "0.29.1", default-features = false }
