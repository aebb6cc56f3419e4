[package]
name = "hrm"
version = "0.1.0"
edition = "2021"

[dependencies]
log = "0.4"
serde = { version = "1", features = ["derive"] }
serde_json = "1"

[dev-dependencies]
regex = "1"
