[package]
name = "tileline"
version = "0.1.0"
edition = "2021"
publish = false

[dependencies]
builder-pattern = "*"
chrono = { version = "0.4", default-features = false }
colorsys = "*"
quick-xml = "*"
