[package]
name = "gfxd"
version = "0.1.0"
edition = "2021"
publish = false
