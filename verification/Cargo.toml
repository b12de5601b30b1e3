[package]
name = "dircpy"
version = "0.3.0"
edition = "2021"
publish = false

[dependencies]
walkdir = "2"
