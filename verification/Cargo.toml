[package]
name = "devtools"
version = "0.1.0"
edition = "2021"
publish = false

[dependencies]
base64 = "0.22"
digest = "0.10"
md-5 = "0.10"
sha1 = "0.10"
sha2 = "0.10"
sha3 = "0.10"
pretty-hex = "*"
serde_json = "1"
