[package]
name = "xmt"
version = "0.1.0"
edition = "2021"
publish = false

[dependencies]
atty = "0.2"
colored = "2"
once_cell = "1"
parking_lot = "0.12"
ptree = "0.4"
serde = "1"
serde_json = "1"
serde-value = "0.7"
