[package]
name = "chip16"
version = "0.1.0"
edition = "2021"
publish = false

[dependencies]
byteorder = "1"
clock_ticks = "0.1"
minifb = "*"
rustc-serialize = "0.3"
