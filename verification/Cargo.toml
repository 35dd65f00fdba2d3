[package]
name = "juno"
version = "0.1.0"
edition = "2021"
publish = false

[dependencies]
heck = "*"
serde_json = "*"
axum = "*"
