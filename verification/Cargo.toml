[package]
name = "osiris"
version = "0.1.0"
edition = "2021"
publish = false

[dependencies]
ab_glyph = "0.2"
gilrs = "0.11"
image = { version = "0.25", default-features = false, features = ["png"] }
quick-xml = "0.31"
softbuffer = "0.4"
tiny-skia = "0.11"
winit = "0.30"
