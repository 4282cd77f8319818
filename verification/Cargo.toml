[package]
name = "easy_graph"
version = "0.1.0"
edition = "2021"
publish = false

[dependencies]
image = "*"
minifb = "*"
plotters = "0.2"
