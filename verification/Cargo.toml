[package]
name = "bar_input"
version = "0.1.0"
edition = "2021"
publish = false

[dependencies]
crossbeam-channel = "0.5"
serde = "1"
serde_derive = "1"
serde_json = "1"
signal-hook = "0.3"
