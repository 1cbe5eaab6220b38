[package]
name = "safe_nfs"
version = "0.1.0"
edition = "2021"
publish = false

[dependencies]
time = "=0.1.45"
sodiumoxide = "=0.2.7"
self_encryption = "=0.2.1"
routing = "=0.4.1"
safe_core = "=0.3.0"
