[package]
name = "linegrid"
version = "0.1.0"
edition = "2021"
publish = false

[dependencies]
gtk = "0.14"
pangocairo = "0.14"
log = "0.4"
nvim-rs = "*"
