[package]
name = "crystal_runtime"
version = "0.1.0"
edition = "2021"
publish = false

[dependencies]
mlua = { version = "0.9", default-features = false, features = ["lua54", "vendored"] }
roxmltree = "0.20"
