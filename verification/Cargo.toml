[package]
name = "netidx_excel"
version = "0.1.0"
edition = "2021"
publish = false

[dependencies]
anyhow = "*"
chrono = "*"
dirs = "*"
fxhash = "*"
log = "*"
serde = { version = "*", features = ["derive"] }
serde_json = "*"
simplelog = "*"
tokio = { version = "*", features = ["rt", "sync", "time"] }
