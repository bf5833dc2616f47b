[package]
name = "sheet_codegen"
version = "0.1.0"
edition = "2021"
publish = false

[dependencies]
calamine = "*"
serde = { version = "*", features = ["derive"] }
serde_json = "*"
