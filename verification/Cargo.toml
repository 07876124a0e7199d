[package]
name = "netcoredbg_adapter"
version = "0.1.0"
edition = "2021"
publish = false

[dependencies]
serde = "*"
serde_json = "*"
zed_extension_api = "*"
