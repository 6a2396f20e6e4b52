[package]
name = "schematis"
version = "0.1.0"
edition = "2021"
publish = false

[dependencies]
quick-xml = { version = "*", features = ["serialize"] }
serde = { version = "*", features = ["derive"] }
