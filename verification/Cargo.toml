[package]
name = "waysnip"
version = "0.1.0"
edition = "2021"
publish = false

[dependencies]
chrono = "0.4"
gdk-pixbuf = "*"
glib = "*"
gtk4 = "*"
gtk4-layer-shell = "*"
