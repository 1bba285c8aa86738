[package]
name = "valence_creator"
version = "0.1.0"
edition = "2021"
publish = false

[dependencies]
valence = { version = "0.2.0-alpha.1", default-features = false }
