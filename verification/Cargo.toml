[package]
name = "vsmtp_delivery"
version = "0.1.0"
edition = "2021"
publish = false

[dependencies]
anyhow = "1"
futures-util = "0.3"
hostname = "0.3"
lettre = { version = "0.10", default-features = false, features = ["smtp-transport", "pool", "builder", "hostname", "tokio1", "tokio1-rustls-tls"] }
pem = "1"
time = { version = "0.3", default-features = false, features = ["formatting", "std"] }
tokio = { version = "1", features = ["rt", "rt-multi-thread", "macros", "sync", "time"] }
trust-dns-resolver = "0.22"
users = "0.11"
uuid = "1"
