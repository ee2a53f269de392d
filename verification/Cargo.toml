[package]
name = "panopticon_m365"
version = "0.1.0"
edition = "2021"
publish = false

[dependencies]
anyhow = "=1.0.104"
oauth2 = { version = "=5.0.0", default-features = false, features = ["reqwest"] }
panopticon-core = "=0.2.3"
serde = { version = "=1.0.229", features = ["derive"] }
serde_json = "=1.0.154"
tokio = { version = "=1.54.1", features = ["sync", "time"] }
uuid = { version = "=1.29.0", features = ["serde"] }
