[package]
name = "rendermath"
version = "0.1.0"
edition = "2021"
publish = false

[dependencies]
glium = "=0.32.1"
image = "=0.24.9"
obj-rs = "*"
