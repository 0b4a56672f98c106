[package]
name = "lemmy_federate"
version = "0.1.0"
edition = "2021"
publish = false

[dependencies]
anyhow = "1"
chrono = { version = "0.4", default-features = false, features = ["clock", "std"] }
either = "1"
moka = { version = "0.12", features = ["sync"] }
serde = { version = "1", features = ["derive"] }
strum = { version = "*", features = ["derive"] }
tokio = { version = "1", features = ["macros", "rt", "sync", "time"] }
tokio-util = "0.7"
tracing = "0.1"
url = "2"
