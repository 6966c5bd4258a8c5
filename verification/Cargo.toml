[package]
name = "context_menu"
version = "0.1.0"
edition = "2021"
publish = false

[dependencies]
termwiz = { version = "*", default-features = false }
