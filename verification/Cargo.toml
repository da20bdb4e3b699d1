[package]
name = "tc_logsave"
version = "0.1.0"
edition = "2021"
publish = false

[dependencies]
chrono = { version = "=0.4.45", default-features = false, features = ["std"] }
flate2 = "=1.1.10"
hex = "=0.4.3"
hmac = "=0.12.1"
http = "=1.5.0"
serde = { version = "=1.0.229", features = ["derive"] }
serde_json = "=1.0.154"
sha2 = "=0.10.9"
ureq = "=2.12.1"
url = "=2.5.8"
xz2 = { version = "=0.1.7", features = ["static"] }
