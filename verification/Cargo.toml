[package]
name = "evexbot"
version = "0.1.0"
edition = "2021"
publish = false

[dependencies]
anyhow = "1"
base64 = "0.13"
chrono = "0.4"
image = { version = "0.24", default-features = false, features = ["png"] }
plotters = { version = "0.3", default-features = false, features = ["line_series"] }
plotters-bitmap = { version = "0.3", default-features = false }
serde = { version = "1", features = ["derive"] }
serde_json = "1"
serde_yaml = "0.9"
smartcore = "0.2"
tokio = { version = "1", features = ["process", "rt-multi-thread", "macros", "io-util"] }
