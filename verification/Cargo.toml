[package]
name = "gas_limit_controller"
version = "0.1.0"
edition = "2021"
publish = false

[dependencies]
prometheus = "0.13"
near-primitives = "*"
