[package]
name = "wiegart"
version = "0.1.0"
edition = "2021"
publish = false

[dependencies]
image = { version = "*", default-features = false, features = ["png"] }
tauri = { version = "*", default-features = false }

[dev-dependencies]
hex = "*"
