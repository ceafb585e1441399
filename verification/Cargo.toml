[package]
name = "lego_powered_up"
version = "0.1.0"
edition = "2021"
publish = false

[dependencies]
anyhow = "1"
btleplug = "0.5"
tokio = { version = "1", features = ["sync", "rt", "time", "macros", "rt-multi-thread"] }
