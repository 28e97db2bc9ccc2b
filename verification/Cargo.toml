[package]
name = "can_gateway"
version = "0.1.0"
edition = "2021"
publish = false

[dependencies]
bxcan = "*"
