[package]
name = "cacophony_io"
version = "0.1.0"
edition = "2021"
publish = false

[dependencies]
regex = "1"
midly = "*"
ghakuf = "*"
serde = { version = "1", features = ["derive"] }
serde_json = "1"
rust-ini = "*"
webbrowser = "*"
hashbrown = "*"
