[package]
name = "qiniu_sdk"
version = "0.1.0"
edition = "2021"
publish = false

[dependencies]
hmac = "=0.12.1"
sha1 = "=0.10.7"
url = "=2.5.8"
rand = "=0.8.8"
form_urlencoded = "=1.2.2"
serde_json = "=1.0.154"
indexmap = "=2.14.2"
futures = "=0.3.34"
futures-timer = "=3.0.4"
c-ares = "=13.1.0"
c-ares-resolver = "=12.1.0"
