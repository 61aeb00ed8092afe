[package]
name = "lisca"
version = "0.1.0"
edition = "2021"
publish = false

[dependencies]
whatlang = "0.16"
unicode-normalization = "0.1"
espeak-ng = "*"
serde = { version = "1", features = ["derive"] }
serde_json = "1"
log = "0.4"
