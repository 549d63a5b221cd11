[package]
name = "glyphshade"
version = "0.1.0"
edition = "2021"
publish = false

[dependencies]
font-kit = "*"
pathfinder_geometry = "*"
colored = "*"
pbr = "*"
prettytable-rs = "*"
