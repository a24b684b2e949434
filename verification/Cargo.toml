[package]
name = "mirror_capture"
version = "0.1.0"
edition = "2021"
publish = false

[dependencies]
clap = { version = "=4.6.7", features = ["cargo"] }
eframe = { version = "=0.20.1", default-features = false, features = ["glow", "default_fonts"] }
log = "=0.4.34"
memflow = "=0.2.4"
serde = { version = "=1.0.229", features = ["derive"] }
simplelog = "=0.12.2"
thread-priority = "=0.10.0"
toml = "=0.8.23"
winapi = { version = "=0.3.9", features = ["winuser", "windef"] }
