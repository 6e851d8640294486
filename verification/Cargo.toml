[package]
name = "notebook"
version = "0.1.0"
edition = "2021"
publish = false

[dependencies]
anyhow = "=1.0.104"
arrow-array = "=50.0.0"
arrow-schema = "=50.0.0"
fastembed = { version = "5", default-features = false, features = ["ort-load-dynamic"] }
futures = "0.3"
log = "0.4"
rand = "=0.8.8"
serde = { version = "1", features = ["derive"] }
