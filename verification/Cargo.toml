[package]
name = "powchain"
version = "0.1.0"
edition = "2021"
publish = false

[dependencies]
bincode = "1"
sha2 = "0.10"
hex = "0.4"
