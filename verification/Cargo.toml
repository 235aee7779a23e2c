[package]
name = "passkeys"
version = "0.1.0"
edition = "2021"
publish = false

[dependencies]
async-trait = "0.1"
axum = { version = "*", default-features = false, features = ["json"] }
base64 = "0.22"
js-sys = "0.3"
log = "0.4"
passkey-server = "*"
serde = { version = "1", features = ["derive"] }
serde_json = "1"
url = "2"
uuid = { version = "1", features = ["v4"] }
worker = { version = "*", features = ["d1"] }
