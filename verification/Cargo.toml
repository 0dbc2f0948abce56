[package]
name = "czkawka_gui"
version = "0.1.0"
edition = "2021"
publish = false

[dependencies]
gtk4 = "0.4"
glib = "0.15"
image = "0.24"
directories-next = "2"
