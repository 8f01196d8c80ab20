[package]
name = "reactive_effects"
version = "0.1.0"
edition = "2021"
publish = false

[dependencies]
bevy = { version = "0.17", default-features = false }
rand = "0.9"
