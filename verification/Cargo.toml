[package]
name = "keylime_device_id"
version = "0.1.0"
edition = "2021"
publish = false

[dependencies]
log = "0.4"
openssl = "0.10"
thiserror = "*"
tss-esapi = "7"
