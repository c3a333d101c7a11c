[package]
name = "carbon"
version = "0.1.0"
edition = "2021"
publish = false

[dependencies]
kurbo = "0.11"
piet = "0.7"
piet-web = "0.7"
