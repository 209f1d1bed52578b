[package]
name = "pods"
version = "0.1.0"
edition = "2021"
publish = false

[dependencies]
indexmap = "1.9"
once_cell = "1"
gettext-rs = "0.7"
gtk4 = "0.6"
libadwaita = "0.3"
