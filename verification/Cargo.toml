[package]
name = "rank_choice"
version = "0.1.0"
edition = "2021"
publish = false

[dependencies]
frame-support = "2.0.0"
frame-system = "2.0.0"
sp-core = "2.0.0"
parity-scale-codec = { version = "1.3", features = ["derive"] }
