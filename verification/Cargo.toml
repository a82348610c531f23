[package]
name = "widevine"
version = "0.1.0"
edition = "2021"
publish = false

[dependencies]
hex = "=0.4.3"
http = "=1.5.0"
openssl = "=0.10.81"
rand = "=0.8.8"
reqwest = { version = "=0.13.5", default-features = false }
serde = { version = "=1.0.229", features = ["derive"] }
serde_json = "=1.0.154"

[dev-dependencies]
base64 = "=0.21.7"
prost = { version = "=0.14.4", default-features = false, features = ["std"] }
