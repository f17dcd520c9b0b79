[package]
name = "openrgb"
version = "0.1.0"
edition = "2021"
publish = false

[dependencies]
array2d = "0.2"
flagset = "0.4"
log = "0.4"
rgb = "0.8"
thiserror = "1"
tokio = { version = "1", default-features = false, features = ["net", "io-util", "sync"] }
