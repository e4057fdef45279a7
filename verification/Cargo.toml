[package]
name = "pico_gpio"
version = "0.1.0"
edition = "2021"
publish = false

[dependencies]
readformat = "*"
serialport = { version = "*", default-features = false }
