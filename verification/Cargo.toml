[package]
name = "webdriver"
version = "0.1.0"
edition = "2021"
publish = false

[dependencies]
regex = "1"
serde_json = "1"
hyper = "0.10"
cookie = { version = "0.2", default-features = false }
time = "0.1"
log = "0.4"
