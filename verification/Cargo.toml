[package]
name = "ruwm"
version = "0.1.0"
edition = "2021"
publish = false

[dependencies]
serde = { version = "1", default-features = false, features = ["derive"] }
embedded-graphics = "0.8"
profont = "*"
embassy-futures = "*"
embassy-sync = "*"
embassy-time = "*"
heapless = "*"
log = "0.4"
enumset = "1"
embedded-hal = "1"
embedded-hal-async = "1"
embedded-svc = { version = "*", default-features = false }
futures = { version = "0.3", default-features = false }
anyhow = "1"
