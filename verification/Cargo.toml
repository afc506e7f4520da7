[package]
name = "proto_terraform"
version = "0.1.0"
edition = "2021"
publish = false

[dependencies]
extism-pdk = "*"
proto_pdk = "*"
serde = { version = "1", features = ["derive"] }
