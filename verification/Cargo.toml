[package]
name = "native_swaps"
version = "0.1.0"
edition = "2021"
publish = false

[dependencies]
anchor-lang = "0.31.1"
borsh = { version = "1", features = ["derive"] }
