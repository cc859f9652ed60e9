[package]
name = "tetra_entities"
version = "0.1.0"
edition = "2021"
publish = false

[dependencies]
bitcode = { version = "0.6", features = ["derive"] }
num = "0.4"
rustfft = "6"
serde = { version = "1", features = ["derive"] }
serde_json = "1"
time = { version = "0.3", features = ["local-offset"] }
tracing = "0.1"
