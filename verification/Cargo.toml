[package]
name = "ollama_core"
version = "0.1.0"
edition = "2021"
publish = false

[dependencies]
serde = { version = "*", features = ["derive"] }
sysinfo = "*"
num_cpus = "*"
which = "*"
