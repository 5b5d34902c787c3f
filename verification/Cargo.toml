[package]
name = "khronos_runtime"
version = "0.1.0"
edition = "2021"
publish = false

[dependencies]
regex = "=1.13.1"
rustrict = "=0.7.39"
base64 = "=0.22.1"
argon2 = "=0.5.3"
aes-gcm = "=0.10.3"
tar = "=0.4.46"
rand = "=0.9.5"
chrono = "=0.4.45"
chrono-tz = "=0.10.4"
serde = { version = "=1.0.229", features = ["derive"] }
serde_json = "=1.0.154"
indexmap = { version = "=2.14.2", features = ["serde"] }
uuid = "=1.29.1"
bstr = "1"
tokio = { version = "1", features = ["io-util", "rt"] }
async-compression = { version = "0.4", features = ["tokio", "gzip"] }
