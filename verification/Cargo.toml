[package]
name = "insilico_social_core"
version = "0.1.0"
edition = "2021"
publish = false

[dependencies]
rand = "*"
