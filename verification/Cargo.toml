[package]
name = "graphical_engine"
version = "0.1.0"
edition = "2021"
publish = false

[dependencies]
vulkano = "=0.31.1"
vulkano-win = "=0.31.0"
winit = "=0.27.5"
log = "0.4"
