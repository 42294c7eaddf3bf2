[package]
name = "ness_relay"
version = "2.0.3"
edition = "2021"
publish = false

[dependencies]
md-5 = "=0.10.6"
sha1 = "=0.10.7"
sha2 = "=0.10.9"
hmac = "=0.12.1"
aes = "=0.8.4"
des = "=0.8.1"
cbc = { version = "=0.1.2", features = ["alloc", "block-padding"] }
cipher = { version = "=0.4.4", features = ["alloc", "block-padding"] }
rand = "=0.8.8"
chrono = "=0.4.45"
anyhow = "=1.0.104"
serde = { version = "=1.0.229", features = ["derive"] }
serde_json = "=1.0.154"
clap = { version = "=4.6.7", features = ["derive"] }
reqwest = { version = "=0.11.27", default-features = false, features = ["blocking", "json", "rustls-tls"] }
zip = { version = "2", default-features = false, features = ["deflate"] }
maxminddb = "0.24"
