[package]
name = "arrow_convert"
version = "0.1.0"
edition = "2021"
publish = false

[dependencies]
arrow = { version = "*", default-features = false }
arrow2 = { version = "*", default-features = false }
chrono = { version = "0.4", default-features = false }
half = { version = "2", default-features = false }
