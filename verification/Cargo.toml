[package]
name = "mini_editor"
version = "0.1.0"
edition = "2021"
publish = false

[dependencies]
chrono = "0.4"
crossterm = "*"
fern = "*"
log = "0.4"
