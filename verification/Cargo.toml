[package]
name = "nrf24_status"
version = "0.1.0"
edition = "2021"
publish = false

[dependencies]
defmt = "*"
ufmt = "*"
