[package]
name = "cosmic-text"
version = "0.1.0"
edition = "2021"
publish = false

[dependencies]
core_maths = "0.1"
