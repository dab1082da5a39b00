[package]
name = "cardpack"
version = "0.1.0"
edition = "2021"
publish = false

[dependencies]
bitvec = "0.20"
wyz = "0.2"
