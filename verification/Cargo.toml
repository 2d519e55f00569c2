[package]
name = "webhook_relay"
version = "0.1.0"
edition = "2021"
publish = false

[dependencies]
rust-crypto = "0.2"
hmac = "0.12"
sha1 = "0.10"
constant_time_eq = "0.3"
