[package]
name = "dcap-qvl-cli"
version = "0.1.0"
edition = "2021"
publish = false

[dependencies]
anyhow = "1"
clap = { version = "4", features = ["derive"] }
dcap-qvl = "=0.5.3"
hex = "=0.4.3"
serde_json = "=1.0.154"
tokio = { version = "1", features = ["macros", "rt-multi-thread", "time"] }
