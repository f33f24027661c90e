[package]
name = "ursa_minor_haptics"
version = "0.1.0"
edition = "2021"
publish = false

[dependencies]
hidapi = "2"
xplm = "0.4"
