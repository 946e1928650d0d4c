[package]
name = "staking_tracker"
version = "0.1.0"
edition = "2021"
publish = false

[dependencies]
odra = "2.9.1"
