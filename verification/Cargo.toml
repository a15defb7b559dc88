[package]
name = "datawrangler"
version = "0.1.0"
edition = "2021"
publish = false

[dependencies]
anyhow = "*"
clap = { version = "*", features = ["derive"] }
crossterm = "*"
datafusion = "*"
shellexpand = "*"
tokio = { version = "*", features = ["macros", "rt-multi-thread"] }
