[package]
name = "unistream"
version = "0.1.0"
edition = "2021"
publish = false

[dependencies]
tokio = { version = "1", features = ["net", "rt", "io-util"] }
tokio-rustls = "0.24"
rustls-pemfile = "1"
rustls-native-certs = "0.6"
