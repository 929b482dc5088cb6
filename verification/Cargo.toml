[package]
name = "pixelterm"
version = "0.1.0"
edition = "2021"
publish = false

[dependencies]
image = "=0.24.9"
crossterm = "=0.29.0"
