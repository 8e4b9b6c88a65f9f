[package]
name = "whirlpool"
version = "0.1.0"
edition = "2021"
publish = false

[dependencies]
hex = "=0.4.3"
anchor-lang = "=0.31.2"
anchor-spl = "=0.31.2"
