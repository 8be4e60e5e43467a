[package]
name = "render_context"
version = "0.1.0"
edition = "2021"
publish = false

[dependencies]
cgmath = { version = "0.17", features = ["mint"] }
ggez = "0.5"
