[package]
name = "adc_driver"
version = "0.1.0"
edition = "2021"
publish = false

[dependencies]
as-slice = "0.2"
cortex-m = "0.7"
embedded-hal = { version = "0.2", features = ["unproven"] }
fugit = "0.3"
nb = "1"
