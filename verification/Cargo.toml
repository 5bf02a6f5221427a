[package]
name = "temper_storage"
version = "0.1.0"
edition = "2021"
publish = false

[dependencies]
heed = "0.22"
dashmap = "6"
parking_lot = "0.12"
page_size = "0.6"
wyhash = "*"
yazi = "*"
bitcode = { version = "0.6", features = ["serde"] }
serde = "1"
tracing = "0.1"

[dev-dependencies]
tempfile = "3"
rand = "*"
