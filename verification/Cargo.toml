[package]
name = "musicbox"
version = "0.1.0"
edition = "2021"
publish = false

[dependencies]
crossterm = "*"
log = "*"
rand = "*"
