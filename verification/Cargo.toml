[package]
name = "ktrl"
version = "0.1.0"
edition = "2021"
publish = false

[dependencies]
evdev-rs = "*"
inotify = "*"
log = "*"
retry = "*"
