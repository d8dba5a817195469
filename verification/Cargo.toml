[package]
name = "steamdeck_input"
version = "0.1.0"
edition = "2021"
publish = false

[dependencies]
hidapi = "2"
log = "0.4"
