[package]
name = "thumbcache"
version = "0.1.0"
edition = "2021"
publish = false

[dependencies]
base64 = "*"
image = "*"
jxl-oxide = { version = "*", features = ["image"] }
infer = "*"
md5 = "*"
mime_guess = "*"
rusqlite = { version = "*", features = ["bundled"] }
