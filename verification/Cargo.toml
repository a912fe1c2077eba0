[package]
name = "hid_rgb_ctl"
version = "0.1.0"
edition = "2021"
publish = false

[dependencies]
lexopt = "0.3"
libc = "0.2"
