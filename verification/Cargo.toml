[package]
name = "libnotify"
version = "0.1.0"
edition = "2021"
publish = false

[dependencies]
libnotify-sys = "*"
glib-sys = "*"
gtypes = "*"
