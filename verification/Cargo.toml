[package]
name = "sunweb"
version = "0.1.0"
edition = "2021"
publish = false

[dependencies]
chrono = "*"
log = "*"
rustls = "*"
rustls-native-certs = "*"
rustls-pemfile = "*"
rustls-pki-types = "*"
serde_json = "*"
