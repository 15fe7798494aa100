[package]
name = "editcore"
version = "0.1.0"
edition = "2021"
publish = false

[dependencies]
unicode-segmentation = "=1.13.3"
unicode-width = "=0.1.12"
crossterm = "=0.29.0"
