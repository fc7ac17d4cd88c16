[package]
name = "mcproto_rs"
version = "0.1.0"
edition = "2021"
publish = false

[dependencies]
hematite-nbt = "*"
serde = { version = "1", features = ["derive"] }
serde_json = "1"
