[package]
name = "rustle"
version = "0.1.0"
edition = "2021"
publish = false

[dependencies]
aes = "0.8"
cbc = "0.1"
ecb = "0.1"
md5 = "0.7"
hex = "0.4"
base64 = "0.22"
urlencoding = "2"
rsa = "0.9"
rand = "0.9"
regex = "1"
serde = { version = "1", features = ["derive"] }
serde_json = "1"
directories = "6"
