[package]
name = "qr_sign"
version = "0.1.0"
edition = "2021"
publish = false

[dependencies]
p256 = { version = "=0.13.2", features = ["jwk"] }
rand_core = { version = "=0.6.4", features = ["getrandom"] }
hmac-sha256 = "=1.1.15"
qrcodegen = "=1.5.0"
zip = { version = "=0.6.6", default-features = false }
