[package]
name = "myip"
version = "0.3.0"
edition = "2021"
publish = false

[dependencies]
ansi_term = "0.12"
atty = "0.2"
lexopt = "0.3"
maxminddb = "0.23"
serde_json = "1"
trust-dns-resolver = "0.23"
