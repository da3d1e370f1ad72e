[package]
name = "merchant"
version = "0.1.0"
edition = "2021"
publish = false

[dependencies]
rand = "0.8"
chrono = "0.4"
crossterm = "0.27"
regex = "1"
ansi-parser = "*"
