[package]
name = "gyros"
version = "0.1.0"
edition = "2021"
publish = false

[dependencies]
clap = { version = "4", features = ["derive"] }
colored = "*"
serde = "1"
serde_derive = "1"
toml = "*"
