[package]
name = "periph_hal"
version = "0.1.0"
edition = "2021"
publish = false

[dependencies]
cortex-m = "=0.6.7"
efm32pg12-pac = "*"
