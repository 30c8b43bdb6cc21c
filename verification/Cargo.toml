[package]
name = "quill"
version = "0.1.0"
edition = "2021"
publish = false

[dependencies]
anyhow = "1"
candid = "0.6"
clap = { version = "3", features = ["derive"] }
hex = "0.4"
ic-agent = "0.5"
ic-types = "0.1"
openssl = "0.10"
