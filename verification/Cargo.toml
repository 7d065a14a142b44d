[package]
name = "phraser"
version = "0.1.0"
edition = "2021"
publish = false

[dependencies]
ferrous-opencc = "=0.4.0"
log = "=0.4.35"
once_cell = "=1.21.4"
reqwest = { version = "=0.12.28", features = ["json"] }
serde = { version = "=1.0.229", features = ["derive"] }
serde_json = "=1.0.154"
