[package]
name = "duckex"
version = "0.1.0"
edition = "2021"
publish = false

[dependencies]
base64 = "=0.22.1"
duckdb = { version = "=1.10506.0", default-features = false }
rustler = "=0.38.0"
