[package]
name = "helium_multi_gateway"
version = "0.1.0"
edition = "2021"
publish = false

[dependencies]
anyhow = "=1.0.104"
axum = "=0.8.9"
base64 = "=0.22.1"
clap = { version = "=4.6.7", features = ["derive"] }
config = { version = "=0.15.27", default-features = false, features = ["toml"] }
helium-crypto = { version = "=0.9.4", default-features = false }
http = "=1.5.0"
http-serde = "=2.1.1"
once_cell = "=1.21.4"
prometheus = "=0.14.0"
qr2term = "=0.3.3"
rand_core = { version = "=0.6.4", features = ["getrandom"] }
reqwest = { version = "=0.12.28", default-features = false, features = ["blocking", "json"] }
serde = { version = "=1.0.229", features = ["derive"] }
signature = { version = "=2.2.0", features = ["std"] }
tokio = { version = "=1.54.1", features = ["full"] }
tracing = "=0.1.44"
tracing-appender = "=0.2.5"
tracing-subscriber = "=0.3.23"
triggered = "=0.1.3"
