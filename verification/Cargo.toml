[package]
name = "desktop_pet"
version = "0.1.0"
edition = "2021"
publish = false

[dependencies]
dirs = "*"
tokio = { version = "*", features = ["fs", "sync", "rt", "rt-multi-thread", "macros"] }
urlencoding = "*"
