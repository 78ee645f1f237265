[package]
name = "seismic_intensity"
version = "0.1.0"
edition = "2021"
publish = false

[dependencies]
chrono = "0.4"
csv = "1"
embedded-graphics = "0.8"
linux-embedded-hal = "*"
plotters = { version = "0.3", default-features = false, features = ["bitmap_backend", "bitmap_encoder", "line_series", "ttf"] }
rppal = "*"
ssd1306 = "*"
