[package]
name = "cancel_core"
version = "0.1.0"
edition = "2021"
publish = false

[dependencies]
skyline_smash = "0.1.0"
