[package]
name = "comments_core"
version = "0.1.0"
edition = "2021"
publish = false

[dependencies]
hdk = "=0.7.0"
holochain_serialized_bytes = "*"
serde = "*"
