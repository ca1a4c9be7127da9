[package]
name = "onerom_honda"
version = "0.1.0"
edition = "2021"
publish = false

[dependencies]
clap = { version = "4", features = ["derive"] }
eframe = { version = "0.31", default-features = false, features = ["glow", "default_fonts", "x11"] }
rfd = { version = "0.15", default-features = false, features = ["xdg-portal", "tokio"] }
serialport = { version = "4", default-features = false }
tokio = { version = "1", features = ["rt-multi-thread"] }
