[package]
name = "specs"
version = "0.1.0"
edition = "2021"
publish = false

[dependencies]
hibitset = { version = "=0.6.4", default-features = false }
