[package]
name = "css_pipeline"
version = "0.1.0"
edition = "2021"
publish = false

[dependencies]
float-pigment-css = "*"
napi = { version = "2", features = ["napi4", "async"] }
napi-derive = "2"
