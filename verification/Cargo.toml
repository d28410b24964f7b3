[package]
name = "scriptify"
version = "0.1.0"
edition = "2021"
publish = false

[dependencies]
arborium = { version = "=2.18.2", features = ["lang-rust"] }
clap = { version = "=4.6.7", features = ["derive"] }
prettyplease = "0.3"
syn-inline-mod = "=0.7.0"
toml = "=1.1.8"
