[package]
name = "ssd1331"
version = "0.3.0"
edition = "2021"
publish = false

[dependencies]
embedded-hal = "0.2.7"
embedded-graphics-core = "0.3"
embedded-graphics = "0.4"
embassy-traits = "*"
