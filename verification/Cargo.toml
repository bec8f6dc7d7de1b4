[package]
name = "jewel"
version = "0.1.0"
edition = "2021"
publish = false

[dependencies]
rand = { version = "=0.8.8", default-features = false, features = ["small_rng"] }
embassy-time = "=0.5.1"
embassy-nrf = { version = "=0.3.1", features = ["nrf52840", "unstable-pac"] }
