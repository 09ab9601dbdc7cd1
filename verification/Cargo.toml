[package]
name = "media_session"
version = "0.1.0"
edition = "2021"
publish = false

[dependencies]
libmpv-sys = "3"
napi = "2"
napi-derive = "2"
serde = { version = "1", features = ["derive"] }
