[package]
name = "input_bridge"
version = "0.1.0"
edition = "2021"
publish = false

[dependencies]
napi = { version = "=2.16.17", features = ["napi4", "dyn-symbols"] }
napi-derive = "=2.16.13"
rdev = "=0.5.3"
