[package]
name = "stm32wl_hal"
version = "0.1.0"
edition = "2021"
publish = false

[dependencies]
stm32wl = { version = "0.15", default-features = false, features = ["stm32wle5"] }
embedded-hal = "0.2"
