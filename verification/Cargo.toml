[package]
name = "encrypted_udp"
version = "0.1.0"
edition = "2021"

[dependencies]
aes-gcm = "=0.11.1"
hex = "=0.4.3"
rand = { version = "=0.10.3", default-features = false, features = ["sys_rng"] }
rand_chacha = "=0.10.0"
