[package]
name = "mjml_render"
version = "0.1.0"
edition = "2021"
publish = false

[dependencies]
hex_color = "=2.1.0"
