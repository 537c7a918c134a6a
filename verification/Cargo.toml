[package]
name = "webp-anim"
version = "0.1.1"
edition = "2021"
publish = false

[dependencies]
fast_image_resize = "5"
libwebp-sys = "0.9.6"
