[package]
name = "honeycomb_bravo"
version = "0.4.0"
edition = "2021"
publish = false

[dependencies]
serde = { version = "1", features = ["derive"] }
toml = "*"
xplm = "*"
xplm-sys = "*"
core-foundation = "*"
core-foundation-sys = "*"
