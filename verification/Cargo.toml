[package]
name = "keyviz"
version = "0.1.0"
edition = "2021"
publish = false

[dependencies]
serde_json = "1"
xkbcommon = "0.8"
evdev = "0.13"
gtk-layer-shell = "0.8"
