[package]
name = "ublox-cellular"
version = "0.4.0"
edition = "2021"
publish = false

[dependencies]
atat = "*"
embedded-hal = "1"
embedded-nal = "*"
heapless = "*"
fugit = "*"
nb = "1"
serde = { version = "1", default-features = false, features = ["derive"] }
