[package]
name = "mymarkdown"
version = "0.1.0"
edition = "2021"
publish = false

[dependencies]
pulldown-cmark = "*"
gtk4 = { version = "*", features = ["v4_12"] }
libadwaita = { version = "*", features = ["v1_5"] }
sourceview5 = "*"
webkit6 = "*"
dirs = "*"
