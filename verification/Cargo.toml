[package]
name = "omnibridge"
version = "0.1.0"
edition = "2021"
publish = false

[dependencies]
anyhow = "1"
bytes = "1"
clap = { version = "4", features = ["derive"] }
dirs = "*"
eframe = { version = "0.37", default-features = false, features = ["glow", "x11", "default_fonts"] }
ffmpeg-next = "7"
hostname = "*"
serde = { version = "1", features = ["derive"] }
serde_json = "1"
tokio = { version = "1", features = ["full"] }
tracing = "0.1"
tracing-subscriber = { version = "0.3", features = ["env-filter"] }
tray-icon = { version = "0.26", default-features = false }
uuid = { version = "1", features = ["v4", "serde"] }
