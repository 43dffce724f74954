[package]
name = "barcode_engine"
version = "0.1.0"
edition = "2021"
publish = false

[dependencies]
hashbrown = "*"
serde = { version = "*", features = ["derive"] }
serde_json = "*"
reqwest = { version = "*", default-features = false, features = ["json"] }
actix-web = { version = "*", default-features = false }
chrono = "*"
clipboard = "*"
rdev = "*"
rodio = "*"
serialport = { version = "*", default-features = false }
