[package]
name = "request_auth"
version = "0.1.0"
edition = "2021"
publish = false

[dependencies]
phonenumber = "=0.3.10"
serde = { version = "=1.0.229", features = ["derive"] }
serde_json = "=1.0.151"
serde_repr = "=0.1.21"
async-trait = "=0.1.92"
