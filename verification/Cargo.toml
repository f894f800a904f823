[package]
name = "run_code"
version = "0.1.0"
edition = "2021"
publish = false

[dependencies]
clap = { version = "4", features = ["derive"] }
directories = "6"
dotenvy = "0.15"
serde_json = "1"
tempfile = "3"
