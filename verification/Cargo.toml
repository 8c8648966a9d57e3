[package]
name = "c2pa_crypto"
version = "0.1.0"
edition = "2021"
publish = false

[dependencies]
openssl = "0.10"
sha1 = "0.10"
sha2 = "0.10"
thiserror = "2"
