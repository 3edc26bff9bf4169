[package]
name = "riv"
version = "0.1.0"
edition = "2021"
publish = false

[dependencies]
crossbeam-channel = "0.5"
eframe = { version = "0.29", default-features = false, features = ["default_fonts", "glow", "x11"] }
fast_image_resize = "5"
gif = "0.13"
gstreamer = "0.23"
gstreamer-app = "0.23"
gstreamer-video = "0.23"
hashbrown = "0.15"
hdrhistogram = { version = "7", default-features = false }
image = { version = "0.25", default-features = false, features = ["bmp", "gif", "ico", "jpeg", "png", "tiff", "webp"] }
lru = "0.12"
parking_lot = "0.12"
rayon = "1"
redb = "2"
rstar = "0.12"
winapi = { version = "0.3", features = ["winuser"] }
