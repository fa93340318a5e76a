[package]
name = "rtc_hal"
version = "0.1.0"
edition = "2021"
publish = false

[dependencies]
cast = { version = "0.3", default-features = false }
time = { version = "0.3", default-features = false }
