[package]
name = "cronet"
version = "0.2.0"
edition = "2021"
publish = false

[dependencies]
base64 = "*"
fastrand = "*"
futures-channel = "*"
hickory-proto = "*"
serde_json = "*"
url = "*"
