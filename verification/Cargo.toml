[package]
name = "sharpener"
version = "0.1.0"
edition = "2021"
publish = false

[dependencies]
flate2 = "1"
md5 = "0.7"
regex = "1"
reqwest = { version = "0.12", default-features = false, features = ["blocking", "multipart", "default-tls"] }
serde = { version = "1", features = ["derive"] }
serde_json = "1"
snafu = "0.8"
structopt = "0.3"
tar = "0.4"
