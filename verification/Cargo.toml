[package]
name = "videobridge"
version = "0.1.0"
edition = "2021"
publish = false

[dependencies]
url = "=2.5.8"
gstreamer = "=0.22.8"
gstreamer-app = "=0.22.6"
