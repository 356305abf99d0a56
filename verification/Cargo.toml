[package]
name = "drawing_in_3d"
version = "0.1.0"
edition = "2021"
publish = false

[dependencies]
cocoa = "0.24"
core-graphics = "0.22"
objc = "0.2"
state = "0.5"
