[package]
name = "edge_resize"
version = "0.1.0"
edition = "2021"
publish = false

[dependencies]
relm4 = "0.9"
