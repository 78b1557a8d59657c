[package]
name = "param_slider"
version = "0.1.0"
edition = "2021"
publish = false

[dependencies]
iced_baseview = "0.6.0"
