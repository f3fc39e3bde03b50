[package]
name = "kokoroxide"
version = "0.1.3"
edition = "2021"
publish = false

[dependencies]
hound = "3.5"
serde_json = "1"
ort = "2.0.0-rc.10"
