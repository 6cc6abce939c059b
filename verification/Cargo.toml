[package]
name = "bebop_axum"
version = "0.1.0"
edition = "2021"
publish = false

[dependencies]
bebop = "*"
axum = "*"
async-trait = "*"
