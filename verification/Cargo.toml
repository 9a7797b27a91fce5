[package]
name = "packet_builder"
version = "0.1.0"
edition = "2021"
publish = false

[dependencies]
serde = { version = "1", features = ["derive"] }
tera = { version = "1", default-features = false }
