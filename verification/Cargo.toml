[package]
name = "fui"
version = "0.1.0"
edition = "2021"
publish = false

[dependencies]
typemap = "=0.3.3"
winit = "=0.19.5"
drawing = "=0.1.0"
