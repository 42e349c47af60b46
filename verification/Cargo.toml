[package]
name = "prim"
version = "0.1.0"
edition = "2021"
publish = false

[dependencies]
bytes = "1"
thiserror = "2"
skia-safe = { version = "*", features = ["textlayout", "svg"] }
napi = "2"
napi-derive = "2"
