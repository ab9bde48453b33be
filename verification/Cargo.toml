[package]
name = "pdos"
version = "0.3.0"
edition = "2021"
publish = false

[dependencies]
num_cpus = "1"
rand = "0.8"
uuid = { version = "1", features = ["v4"] }
sha2 = "0.10"
flate2 = "1"
serde = { version = "1", features = ["derive"] }
serde_json = "1"
dirs = "5"
chrono = "0.4"
