[package]
name = "skimtoken"
version = "0.1.0"
edition = "2021"
publish = false

[dependencies]
whatlang = "*"
serde = { version = "*", features = ["derive"] }
