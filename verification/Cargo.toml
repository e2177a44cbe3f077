[package]
name = "gymnarium_application"
version = "0.1.0"
edition = "2021"
publish = false

[dependencies]
bincode = "1"
clap = "2"
ron = "0.6"
serde = "1"
serde_json = "1"
