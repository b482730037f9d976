[package]
name = "curio"
version = "0.1.0"
edition = "2021"
publish = false

[dependencies]
chunked_transfer = "1"
rustls = "0.18"
webpki = "0.21"
webpki-roots = "0.20"
