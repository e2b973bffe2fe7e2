[package]
name = "edgarkit"
version = "0.1.0"
edition = "2021"
publish = false

[dependencies]
fastrand = "*"
chrono = "*"
flate2 = "*"
serde_urlencoded = "*"
serde = { version = "*", features = ["derive"] }
serde_json = "*"
quick-xml = { version = "*", features = ["serialize"] }
reqwest = { version = "*", default-features = false }
tokio = { version = "*", features = ["time", "rt"] }
futures = "*"
