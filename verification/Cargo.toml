[package]
name = "rget"
version = "0.1.0"
edition = "2021"
publish = false

[dependencies]
clap = { version = "4", features = ["derive"] }
console = "0.15"
indicatif = "0.17"
reqwest = "0.12"
tokio = { version = "1", features = ["rt-multi-thread"] }
url = "2"
