[package]
name = "bang_web"
version = "0.1.0"
edition = "2021"
publish = false

[dependencies]
local-ip-address = "=0.6.13"
serde = { version = "=1.0.229", features = ["derive"] }
spmc = "=0.3.0"
tera = "=1.20.1"
tiny_http = "=0.12.0"
toml = "=0.9.8"
ws = "=0.9.2"
