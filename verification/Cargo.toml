[package]
name = "acfunlivedata"
version = "0.1.0"
edition = "2021"
publish = false

[dependencies]
rand = "0.8"
chrono = "0.4"
highway = "*"
serde_json = "1"
serde = { version = "1", features = ["derive"] }
rusqlite = { version = "*", features = ["bundled"] }
rpassword = "*"
encon = "*"
bincode = "1"
