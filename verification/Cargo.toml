[package]
name = "uniswap_v2"
version = "0.1.0"
edition = "2021"
publish = false

[dependencies]
ink = { version = "=5.1.1", default-features = true }
parity-scale-codec = { version = "=3.7.5", default-features = true, features = ["derive"] }
scale-info = { version = "=2.11.6", default-features = true, features = ["derive"] }
psp22 = { version = "2", default-features = true }
