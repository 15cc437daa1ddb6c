[package]
name = "post_pipeline"
version = "0.1.0"
edition = "2021"
publish = false

[dependencies]
chrono = { version = "0.4", default-features = false, features = ["clock", "serde"] }
url = "2"
serde = { version = "1", features = ["derive"] }
tracing = "0.1"
webmention = "*"
