[package]
name = "media_toc_core"
version = "0.1.0"
edition = "2021"
publish = false

[dependencies]
byte-slice-cast = "*"
serde = { version = "*", features = ["derive"] }
ron = "*"
directories = "*"
