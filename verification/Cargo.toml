[package]
name = "window_timer"
version = "0.1.0"
edition = "2021"
publish = false

[dependencies]
chrono = "0.4"
csv = "1"
lazy_static = "1"
x11rb = { version = "0.13", features = ["all-extensions"] }
x11 = { version = "2", features = ["xlib", "xrecord"] }
