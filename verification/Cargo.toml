[package]
name = "nova_config"
version = "0.1.0"
edition = "2021"
publish = false

[dependencies]
diesel = { version = "2", features = ["sqlite"] }
prettytable-rs = { version = "0.10", default-features = false }
seahorse = "2"
