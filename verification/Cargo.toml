[package]
name = "ledc"
version = "0.1.0"
edition = "2021"
publish = false

[dependencies]
humantime = "2"
serde = { version = "1", features = ["derive"] }
bincode = "1"
app_dirs2 = "2"
serialport = { version = "4", default-features = false }
