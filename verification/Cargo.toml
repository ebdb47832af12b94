[package]
name = "starship"
version = "0.1.0"
edition = "2021"
publish = false

[dependencies]
battery = "0.7"
log = "0.4"
