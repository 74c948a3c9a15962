[package]
name = "json_errors"
version = "0.1.0"
edition = "2021"
publish = false

[dependencies]
regex = "=1.13.1"
serde_json = "=1.0.154"
serde = { version = "=1.0.229", features = ["derive"] }
log = "=0.4.34"
diesel = { version = "=2.3.14", default-features = false }
reqwest = "=0.9.24"
rocket = { version = "=0.5.2", features = ["json"] }
stripe-rust = { version = "=0.10.5", default-features = false }
stripe_api = "=0.5.9"
