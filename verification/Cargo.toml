[package]
name = "mollie_cli"
version = "0.1.0"
edition = "2021"
publish = false

[dependencies]
toml = "*"
serde_json = "*"
reqwest = { version = "*", default-features = false, features = ["blocking"] }
requestty = "*"
colored = "*"
