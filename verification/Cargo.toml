[package]
name = "variable_services"
version = "0.1.0"
edition = "2021"
publish = false

[dependencies]
fallible-streaming-iterator = "*"
r-efi = "*"
