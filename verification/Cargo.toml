[package]
name = "redit"
version = "0.1.0"
edition = "2021"
publish = false

[dependencies]
chrono = "0.4"
crossterm = "0.27"
directories = "5"
mlua = { version = "0.9", features = ["lua54", "vendored"] }
tree-sitter = "0.20"
tree-sitter-rust = "0.20"
