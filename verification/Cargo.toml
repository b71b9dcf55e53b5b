[package]
name = "flox_activations"
version = "0.1.0"
edition = "2021"
publish = false

[dependencies]
uuid = { version = "1", features = ["v4"] }
fslock = "0.2"
serde_json = "1"
clap = { version = "4", features = ["derive"] }
anyhow = "1"
time = "0.3"
