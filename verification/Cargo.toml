[package]
name = "incremental_affix"
version = "0.1.0"
edition = "2021"
publish = false

[dependencies]
anymap = "0.12"
bevy = { version = "0.17", default-features = false }
rand = "0.9"
