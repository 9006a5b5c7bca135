[package]
name = "fhe_pay"
version = "0.1.0"
edition = "2021"
publish = false

[dependencies]
bincode = "=1.3.3"
fhe = "=0.1.1"
fhe-traits = "=0.1.1"
rand = "=0.9.5"
risc0-zkvm = "=0.19.1"
rocket = { version = "=0.5.2", features = ["json"] }
serde = { version = "=1.0.229", features = ["derive"] }
serde_json = "=1.0.154"
