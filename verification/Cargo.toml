[package]
name = "x11_ime"
version = "0.1.0"
edition = "2021"
publish = false

[dependencies]
xim = { version = "=0.1.2", features = ["xlib-client"] }
x11-dl = "=2.21.0"
