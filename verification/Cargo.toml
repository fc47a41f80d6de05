[package]
name = "detect_dns_packet"
version = "0.1.0"
edition = "2021"
publish = false

[dev-dependencies]
hex = "0.4"
