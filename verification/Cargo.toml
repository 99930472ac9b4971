[package]
name = "kafka_error"
version = "0.1.0"
edition = "2021"
publish = false

[dependencies]
openssl = "0.10"
snap = "0.2"
