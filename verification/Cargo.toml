[package]
name = "dev_toolbox"
version = "0.1.0"
edition = "2021"
publish = false

[dependencies]
jsonwebtoken = "9"
rsa = "0.9"
rand = "0.8"
base64 = "0.22"
serde_json = "1"
serde = { version = "1", features = ["derive"] }
chrono = "0.4"
md2 = "0.10"
md4 = "0.10"
md5 = "0.7"
sha1 = "0.10"
sha2 = "0.10"
sha3 = "0.10"
regex = "1"
url = "2"
percent-encoding = "2"
uuid = { version = "1", features = ["v1", "v3", "v4", "v5"] }

[dev-dependencies]
hex = "0.4"
