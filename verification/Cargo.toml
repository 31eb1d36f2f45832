[package]
name = "libwebp"
version = "0.1.0"
edition = "2021"
publish = false

[dependencies]
libwebp-sys2 = { version = "0.1", features = ["0_5", "static"] }
