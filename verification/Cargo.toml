[package]
name = "steamworks"
version = "0.1.0"
edition = "2021"
publish = false

[dependencies]
steamworks-sys = { version = "=0.2.3", features = ["docs-only"] }
libc = "=0.2.191"
failure = "=0.1.8"
