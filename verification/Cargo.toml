[package]
name = "cass_cluster"
version = "0.5.0"
edition = "2021"
publish = false

[dependencies]
scylla = { version = "1.1", features = ["openssl-010"] }
uuid = "1"
openssl = "0.10"
openssl-sys = "0.9"
