[package]
name = "nyxframe"
version = "0.1.0"
edition = "2021"
publish = false

[dependencies]
serde = { version = "=1.0.229", features = ["derive"] }
serde_json = "=1.0.154"
log = "=0.4.35"
env_logger = "=0.11.11"
tokio = { version = "=1.54.1", features = ["full"] }
libc = "=0.2.191"
openh264 = "=0.9.9"
scrap = "=0.5.0"
gstreamer = "=0.22.8"
gstreamer-app = "=0.22.6"
gstreamer-video = "=0.22.8"
ashpd = "=0.8.2"
