[package]
name = "menu_core"
version = "0.1.0"
edition = "2021"
publish = false

[dependencies]
bevy = { version = "0.11", default-features = false }
bevy_proto = { version = "0.11", default-features = false }
