[package]
name = "nodemon_rs"
version = "0.1.0"
edition = "2021"
publish = false

[dependencies]
notify = "6"
napi = "2"
napi-derive = "2"
