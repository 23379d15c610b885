[package]
name = "uniffi_core"
version = "0.24.0"
edition = "2021"
publish = false

[dependencies]
anyhow = "=1.0.104"
bytes = "=1.12.1"
pulldown-cmark = { version = "=0.9.6", default-features = false }
static_assertions = "=1.1.0"
syn = { version = "=2.0.119", features = ["full"] }
