[package]
name = "roro"
version = "0.1.0"
edition = "2021"
publish = false

[dependencies]
chrono = "*"
console = "*"
notify-rust = { version = "*", default-features = false, features = ["z"] }
serde = "*"
serde_derive = "*"
toml = "*"
