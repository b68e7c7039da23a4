[package]
name = "ssd1306"
version = "0.1.0"
edition = "2021"
publish = false

[dependencies]
byte-slice-cast = "*"
embedded-hal = "*"
embedded-hal-async = "*"
embassy-futures = "*"
embedded-graphics-core = "*"
