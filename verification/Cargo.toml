[package]
name = "coinjoin"
version = "0.1.0"
edition = "2021"
publish = false

[dependencies]
aes-gcm = "0.10"
getrandom = "0.2"
libsecp256k1 = "0.7"
rustc-hex = "2.1"
