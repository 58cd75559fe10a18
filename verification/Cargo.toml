[package]
name = "schat"
version = "0.1.0"
edition = "2021"
publish = false

[dependencies]
bs58 = "=0.5.1"
data-encoding = "=2.11.1"
gif = "=0.13.3"
image = { version = "=0.25.10", default-features = false, features = ["png", "jpeg", "webp", "gif"] }
qrcode = { version = "=0.14.1", default-features = false }
rand = "=0.9.5"
sha2 = "=0.10.9"
tracing = "=0.1.44"
tracing-subscriber = { version = "=0.3.23", features = ["env-filter"] }
