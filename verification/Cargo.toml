[package]
name = "pixel_zero"
version = "0.1.0"
edition = "2021"
publish = false

[dependencies]
image = { version = "=0.25.10", default-features = false, features = ["png"] }
drm = "=0.14.1"
gbm = { version = "=0.18.0", default-features = false, features = ["drm-support"] }
khronos-egl = { version = "=6.0.0", features = ["static"] }
gl = "=0.14.0"
glow = "=0.18.0"
