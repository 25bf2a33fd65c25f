[package]
name = "sokuten"
version = "0.1.0"
edition = "2021"
publish = false

[dependencies]
anyhow = "1"
dirs = "=5.0.1"
mimalloc = "0.1"
muda = { version = "=0.15.3", default-features = false }
serde = { version = "1", features = ["derive"] }
serde_json = "1"
single-instance = "0.3"
tracing = "0.1"
tracing-subscriber = { version = "0.3", features = ["env-filter"] }
tray-icon = { version = "=0.19.3", default-features = false }
