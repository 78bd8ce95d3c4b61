[package]
name = "pdsl_model"
version = "0.1.0"
edition = "2021"
publish = false

[dependencies]
either = "1"
parity-codec = "3"
pallet-contracts-primitives = "*"
