[package]
name = "relay_collator"
version = "0.1.0"
edition = "2021"
publish = false

[dependencies]
parity-scale-codec = "3"
futures = "0.3"
