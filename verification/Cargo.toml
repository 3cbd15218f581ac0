[package]
name = "conc"
version = "0.1.0"
edition = "2021"
publish = false

[dependencies]
parking_lot = "0.12"
crossbeam-channel = "0.5"

[dev-dependencies]
crossbeam-utils = "0.8"
rand = "0.8"
