[package]
name = "snapper"
version = "0.1.0"
edition = "2021"
publish = false

[dependencies]
bytemuck = "1"
geo = { version = "=0.33.1", default-features = false }
tiny-skia = "=0.11.4"
