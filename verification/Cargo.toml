[package]
name = "webdom"
version = "0.1.0"
edition = "2021"
publish = false

[dependencies]
async-channel = "*"
curl = "*"
gtk = "0.18"
html5ever = "0.26"
url = "*"
