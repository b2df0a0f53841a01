[package]
name = "camview"
version = "0.1.0"
edition = "2021"
publish = false

[dependencies]
anyhow = "1"
nokhwa = { version = "0.10", features = ["input-native"] }
slint = { version = "1", default-features = false, features = ["compat-1-2", "std"] }
