[package]
name = "veles_casper"
version = "0.1.0"
edition = "2021"
publish = false

[dependencies]
casper-types = "*"
base64 = "*"
hex = "*"
