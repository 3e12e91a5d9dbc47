[package]
name = "embedded_midi"
version = "0.1.0"
edition = "2021"
publish = false

[dependencies]
embedded-hal-nb = "1"
nb = "1"
