[package]
name = "ferriskeys"
version = "0.1.0"
edition = "2021"
publish = false

[dependencies]
dirs = "5"
notify = "6.1"
rdev = "0.5"
toml = "0.8"
