[package]
name = "digital_signature_verifier"
version = "0.1.0"
edition = "2021"
publish = false

[dependencies]
winapi = { version = "0.3", features = ["wintrust", "winerror", "guiddef", "windef", "minwindef"] }
