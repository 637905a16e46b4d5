[package]
name = "vid_v2"
version = "0.1.0"
edition = "2021"
publish = false

[dependencies]
anyhow = "=1.0.104"
crossbeam-channel = "=0.5.17"
eframe = { version = "=0.29.1", default-features = false, features = ["default_fonts", "wgpu", "x11"] }
gstreamer = "=0.23.7"
gstreamer-app = "=0.23.5"
gstreamer-pbutils = "=0.23.5"
gstreamer-video = "=0.23.6"
lazy_bastard = "=0.1.6"
url = "=2.5.8"
