[package]
name = "krab"
version = "0.1.0"
edition = "2021"
publish = false

[dependencies]
aes-gcm-siv = "0.11"
scrypt = "0.11"
sha2 = "0.10"
rand = "0.8"
directories = "5"
