[package]
name = "rusty_usn"
version = "0.1.0"
edition = "2021"
publish = false

[dependencies]
byteorder = "1"
chrono = { version = "0.4", features = ["serde"] }
encoding = "0.2"
hex = "0.4"
serde = { version = "1", features = ["derive"] }
serde_json = "1"
winstructs = "*"
