[package]
name = "ffi_convert"
version = "0.1.0"
edition = "2021"
publish = false

[dependencies]
libc = "=0.2.191"
proc-macro2 = "=1.0.107"
quote = "=1.0.47"
syn = { version = "=2.0.119", features = ["full", "extra-traits"] }
thiserror = "=1.0.69"

[dev-dependencies]
anyhow = "=1.0.104"
