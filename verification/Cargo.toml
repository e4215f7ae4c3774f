[package]
name = "redo_env"
version = "0.1.0"
edition = "2021"
publish = false

[dependencies]
common-path = "1"
tempfile = "3"
