[package]
name = "wireless_display"
version = "0.1.0"
edition = "2021"
publish = false

[dependencies]
anyhow = "1"
base64 = "=0.22.1"
clap = { version = "4", features = ["derive"] }
dialoguer = "*"
ffmpeg-next = "*"
mdns-sd = "*"
mouse_position = "*"
reqwest = { version = "*", default-features = false, features = ["json"] }
serde = { version = "1", features = ["derive"] }
serde_json = "1"
tokio = { version = "1", features = ["rt-multi-thread", "macros", "sync", "time", "signal"] }
warp = { version = "=0.4.3", features = ["server"] }
webrtc = "=0.17.2"
