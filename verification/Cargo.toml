[package]
name = "font-atlas"
version = "0.1.0"
edition = "2021"
publish = false

[dependencies]
freetype-rs = "*"
cairo-rs = { version = "*", features = ["png"] }
gdk = "*"
glib = "*"
gtk = "*"
