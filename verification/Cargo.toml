[package]
name = "teos_fixtures"
version = "0.1.0"
edition = "2021"
publish = false

[dependencies]
bitcoin = "=0.28.2"
lightning-block-sync = "=0.0.108"
rand = "=0.8.5"
chacha20poly1305 = "=0.9.1"
