[package]
name = "fabela"
version = "0.1.0"
edition = "2021"
publish = false

[dependencies]
zstd = "*"
faster-hex = "*"
rand = "0.9"
rquickjs = { version = "*", features = ["macro"] }
rusqlite = { version = "*", features = ["bundled"] }
clap = { version = "4", features = ["derive"] }
miette = "*"
thiserror = "*"
tracing = "*"
tracing-subscriber = "*"
hostname = "*"
winreg = "*"
