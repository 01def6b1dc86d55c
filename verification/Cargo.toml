[package]
name = "glctx"
version = "0.1.0"
edition = "2021"
publish = false

[dependencies]
glutin_egl_sys = "*"
raw-window-handle = "0.5"
log = "0.4"
libloading = "*"
