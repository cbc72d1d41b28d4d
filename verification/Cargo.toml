[package]
name = "embedded_charts"
version = "0.1.0"
edition = "2021"
publish = false

[dependencies]
embedded-graphics = "*"
u8g2-fonts = "*"
