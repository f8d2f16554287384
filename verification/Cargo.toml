[package]
name = "open_dmx"
version = "0.1.0"
edition = "2021"
publish = false

[dependencies]
libftd2xx = { version = "*", features = ["static"] }
