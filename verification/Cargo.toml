[package]
name = "humidity_monitor"
version = "0.1.0"
edition = "2021"
publish = false

[dependencies]
cortex-m = "0.7"
embedded-hal = "0.2"
rp-pico = "0.8"
liquidcrystal_i2c-rs = "*"
