[package]
name = "chipmunk"
version = "0.1.0"
edition = "2021"
publish = false

[dependencies]
anyhow = "1"
clap = { version = "4", features = ["derive"] }
dirs = "*"
mlua = { version = "*", features = ["lua54", "vendored", "serialize"] }
serde = { version = "1", features = ["derive"] }
serde_yml = "*"
tracing = "0.1"
tracing-subscriber = "0.3"
