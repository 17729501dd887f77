[package]
name = "toml2json"
version = "0.1.0"
edition = "2021"
publish = false

[dependencies]
itoa = "=1.0.18"
serde_json = "=1.0.154"
serde-transcode = "=1.1.1"
toml = { version = "=0.9.12", features = ["preserve_order"] }
