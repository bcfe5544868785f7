[package]
name = "iced_nsview"
version = "0.1.0"
edition = "2021"
publish = false

[dependencies]
cocoa = "*"
core-graphics = "*"
iced_native = "0.2"
iced_wgpu = "0.2"
objc = "*"
