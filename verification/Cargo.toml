[package]
name = "record_browser"
version = "0.1.0"
edition = "2021"
publish = false

[dependencies]
tokio = { version = "*", features = ["rt-multi-thread", "macros"] }
tokio-postgres = "*"
eframe = { version = "=0.22.0", default-features = false, features = ["glow", "default_fonts"] }
