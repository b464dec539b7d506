[package]
name = "cards"
version = "0.1.0"
edition = "2021"
publish = false

[dependencies]
secret-cosmwasm-std = "*"
secret-toolkit = { version = "*", default-features = false, features = ["storage", "viewing-key"] }
serde = { version = "1", default-features = false, features = ["derive"] }
schemars = "0.8"
