[package]
name = "desktop_notify"
version = "0.1.0"
edition = "2021"
publish = false

[dependencies]
notify-rust = "=4.18.2"
nu-plugin = { version = "=0.108.0", default-features = false }
nu-protocol = "=0.108.0"
