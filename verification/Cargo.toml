[package]
name = "polysynth"
version = "0.1.0"
edition = "2021"
publish = false

[dependencies]
fastrand = "2"
anyhow = "1"
rodio = { version = "0.17", default-features = false }
device_query = "1"
