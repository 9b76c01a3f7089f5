[package]
name = "chaplin-click"
version = "0.1.0"
edition = "2021"
publish = false

[dependencies]
anyhow = "1"
evdev = "0.12"
inotify = { version = "0.10", default-features = false }
libc = "0.2"
signal-hook = "0.3"
