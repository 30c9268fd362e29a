[package]
name = "numvec"
version = "0.1.0"
edition = "2021"
publish = false

[dependencies]
fasteval = "0.2"
mlua = { version = "0.9", features = ["lua54", "vendored"] }
