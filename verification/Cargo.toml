[package]
name = "zero2prod"
version = "0.1.0"
edition = "2021"
publish = false

[dependencies]
unicode-segmentation = "1"
actix-web = { version = "4", default-features = false }
reqwest = { version = "0.11", default-features = false }
secrecy = { version = "0.8", features = ["serde"] }
serde = { version = "1", features = ["derive"] }
tracing = "0.1"
