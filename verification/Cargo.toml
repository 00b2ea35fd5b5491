[package]
name = "aerofoil"
version = "0.1.0"
edition = "2021"
publish = false

[dependencies]
aeron-rs = "=0.1.8"
anyhow = "=1.0.104"
rusteron-client = "=0.2.16"
wingfoil = "=2.1.1"
