[package]
name = "is31fl3235a"
version = "0.1.0"
edition = "2021"

[dependencies]
embedded-hal = "0.2.7"
